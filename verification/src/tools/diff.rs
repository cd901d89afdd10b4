//! Line diffs for change previews, computed by the `similar` crate.

use vstd::prelude::*;

use crate::text::append_str;

verus! {

/// Kind of a line in a diff.
#[derive(Clone, Copy, Debug, PartialEq, Eq, Structural)]
pub enum LineTag {
    Equal,
    Delete,
    Insert,
}

/// The line changes that `similar::TextDiff::from_lines(old, new)` lists,
/// each with the text of its line (a missing final newline added).
pub uninterp spec fn line_diff(old: Seq<char>, new: Seq<char>) -> Seq<(LineTag, Seq<char>)>;

/// `TextDiff::from_lines(old, new).iter_all_changes()`, each change as its tag
/// and its `Display` text.
#[verifier::external_body]
fn diff_lines(old: &str, new: &str) -> (r: Vec<(LineTag, String)>)
    ensures
        r@.map_values(|c: (LineTag, String)| (c.0, c.1@)) == line_diff(old@, new@),
{
    similar::TextDiff::from_lines(old, new)
        .iter_all_changes()
        .map(|c| (match c.tag() {
            similar::ChangeTag::Equal => LineTag::Equal,
            similar::ChangeTag::Delete => LineTag::Delete,
            similar::ChangeTag::Insert => LineTag::Insert,
        }, c.to_string()))
        .collect()
}

/// The sign printed before a line of each kind.
pub open spec fn sign(t: LineTag) -> Seq<char> {
    match t {
        LineTag::Delete => "-"@,
        LineTag::Insert => "+"@,
        LineTag::Equal => " "@,
    }
}

/// A diff printed line by line, each line after its sign.
pub open spec fn render_diff(cs: Seq<(LineTag, Seq<char>)>) -> Seq<char>
    decreases cs.len(),
{
    if cs.len() == 0 {
        Seq::empty()
    } else {
        render_diff(cs.drop_last()) + sign(cs.last().0) + cs.last().1
    }
}

/// The diff preview of a change from `old` to `new`.
pub fn format_diff(old: &str, new: &str) -> (r: String)
    ensures
        r@ == render_diff(line_diff(old@, new@)),
{
    let changes = diff_lines(old, new);
    let ghost cm = changes@.map_values(|c: (LineTag, String)| (c.0, c.1@));
    let mut output = String::new();
    let mut i: usize = 0;
    while i < changes.len()
        invariant
            i <= changes@.len(),
            cm == changes@.map_values(|c: (LineTag, String)| (c.0, c.1@)),
            output@ == render_diff(cm.take(i as int)),
        decreases changes.len() - i,
    {
        let sign_text = match changes[i].0 {
            LineTag::Delete => "-",
            LineTag::Insert => "+",
            LineTag::Equal => " ",
        };
        append_str(&mut output, sign_text);
        append_str(&mut output, changes[i].1.as_str());
        proof {
            let t = cm.take(i + 1);
            assert(t.drop_last() =~= cm.take(i as int));
            assert(t.last() == cm[i as int]);
        }
        i = i + 1;
    }
    assert(cm.take(changes@.len() as int) =~= cm);
    output
}

} // verus!
