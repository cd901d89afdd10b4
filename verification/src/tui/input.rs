//! The input line editor with history, and slash commands.

use vstd::prelude::*;

use crate::json::str_eq;
use crate::text::{
    byte_len, char_byte_width, chars_of, is_boundary, lemma_byte_len_concat, lemma_byte_len_single,
    lemma_byte_len_take_step, lowercase, push_char, str_byte_len, string_from_range, to_lowercase,
};

verus! {

/// The character index at which a prefix of `s` takes `b` bytes.
pub open spec fn char_index(s: Seq<char>, b: int) -> int {
    choose|k: int| 0 <= k <= s.len() && #[trigger] byte_len(s.take(k)) == b
}

proof fn lemma_prefix_bytes_strict(s: Seq<char>, i: int, j: int)
    requires
        0 <= i < j <= s.len(),
    ensures
        byte_len(s.take(i)) < byte_len(s.take(j)),
    decreases j - i,
{
    crate::text::lemma_byte_len_take_step(s, j - 1);
    lemma_byte_len_single(s[j - 1]);
    if i < j - 1 {
        lemma_prefix_bytes_strict(s, i, j - 1);
    }
}

/// The character index of a boundary is the only prefix length with that many bytes.
pub proof fn lemma_char_index(s: Seq<char>, b: int)
    requires
        is_boundary(s, b),
    ensures
        0 <= char_index(s, b) <= s.len(),
        byte_len(s.take(char_index(s, b))) == b,
        forall|k: int| 0 <= k <= s.len() && #[trigger] byte_len(s.take(k)) == b ==> k == char_index(s, b),
{
    let c = char_index(s, b);
    assert forall|k: int| 0 <= k <= s.len() && #[trigger] byte_len(s.take(k)) == b implies k == c by {
        if k < c {
            lemma_prefix_bytes_strict(s, k, c);
        } else if c < k {
            lemma_prefix_bytes_strict(s, c, k);
        }
    }
}

/// Removing the character just inserted at a boundary gives back the text.
proof fn lemma_insert_remove(s: Seq<char>, p: int, c: char)
    requires
        is_boundary(s, p),
    ensures
        ({
            let k = char_index(s, p);
            let t = s.take(k) + seq![c] + s.skip(k);
            &&& is_boundary(t, p)
            &&& p < byte_len(t)
            &&& char_index(t, p) == k
            &&& t.take(char_index(t, p)) + t.skip(char_index(t, p) + 1) == s
        }),
{
    lemma_char_index(s, p);
    let k = char_index(s, p);
    let t = s.take(k) + seq![c] + s.skip(k);
    assert(t.take(k) =~= s.take(k));
    assert(byte_len(t.take(k)) == p);
    assert(is_boundary(t, p));
    lemma_char_index(t, p);
    assert(s =~= s.take(k) + s.skip(k));
    lemma_byte_len_concat(s.take(k) + seq![c], s.skip(k));
    lemma_byte_len_concat(s.take(k), seq![c]);
    lemma_byte_len_single(c);
    assert(t.take(k) + t.skip(k + 1) =~= s);
}

/// Finds the character index of a byte offset that is a boundary.
fn char_index_of(v: &Vec<char>, b: usize) -> (k: usize)
    requires
        is_boundary(v@, b as int),
    ensures
        k as int == char_index(v@, b as int),
        k <= v@.len(),
{
    proof {
        lemma_char_index(v@, b as int);
        assert(v@.take(0) =~= Seq::<char>::empty());
        assert(vstd::utf8::encode_utf8(Seq::<char>::empty()) =~= Seq::<u8>::empty());
    }
    let ghost c = char_index(v@, b as int);
    let mut i: usize = 0;
    let mut off: usize = 0;
    while off < b
        invariant
            0 <= c <= v@.len(),
            byte_len(v@.take(c)) == b,
            forall|k: int| 0 <= k <= v@.len() && #[trigger] byte_len(v@.take(k)) == b ==> k == c,
            i <= c,
            c <= v.len(),
            off == byte_len(v@.take(i as int)),
            off <= b,
        decreases b - off,
    {
        proof {
            if i == c {
                assert(false);
            }
            assert(i < c);
            lemma_byte_len_take_step(v@, i as int);
            lemma_byte_len_single(v@[i as int]);
            if i + 1 < c {
                lemma_prefix_bytes_strict(v@, i + 1, c);
            }
        }
        let w = char_byte_width(v[i]);
        off = off + w;
        i = i + 1;
        proof {
            if i < c {
                lemma_prefix_bytes_strict(v@, i as int, c);
            }
        }
    }
    i
}

/// Slash commands that the user can invoke.
#[derive(PartialEq, Eq, Debug)]
pub enum SlashCommand {
    Help,
    Clear,
    Model(String),
    Compact,
    Save,
    Quit,
    Unknown(String),
}

/// Index of the first space in `s` at or after `i`, or `s.len()`.
pub open spec fn space_from(s: Seq<char>, i: int) -> int
    decreases s.len() - i,
{
    if i < 0 || i >= s.len() {
        s.len() as int
    } else if s[i] == ' ' {
        i
    } else {
        space_from(s, i + 1)
    }
}

proof fn lemma_space_from(s: Seq<char>, i: int)
    requires
        0 <= i <= s.len(),
    ensures
        i <= space_from(s, i) <= s.len(),
        space_from(s, i) < s.len() ==> s[space_from(s, i)] == ' ',
        forall|k: int| i <= k < space_from(s, i) ==> s[k] != ' ',
    decreases s.len() - i,
{
    if i < s.len() && s[i] != ' ' {
        lemma_space_from(s, i + 1);
    }
}

/// The command word of a slash command line (the text between the slash
/// and the first space) and its argument (what follows that space, if any).
pub open spec fn command_word(line: Seq<char>) -> Seq<char> {
    let rest = line.skip(1);
    rest.take(space_from(rest, 0))
}

pub open spec fn command_arg(line: Seq<char>) -> Option<Seq<char>> {
    let rest = line.skip(1);
    let k = space_from(rest, 0);
    if k < rest.len() {
        Some(rest.skip(k + 1))
    } else {
        None
    }
}

/// Model of a slash command.
pub enum SlashModel {
    Help,
    Clear,
    Model(Seq<char>),
    Compact,
    Save,
    Quit,
    Unknown(Seq<char>),
}

impl View for SlashCommand {
    type V = SlashModel;

    open spec fn view(&self) -> SlashModel {
        match self {
            SlashCommand::Help => SlashModel::Help,
            SlashCommand::Clear => SlashModel::Clear,
            SlashCommand::Model(n) => SlashModel::Model(n@),
            SlashCommand::Compact => SlashModel::Compact,
            SlashCommand::Save => SlashModel::Save,
            SlashCommand::Quit => SlashModel::Quit,
            SlashCommand::Unknown(c) => SlashModel::Unknown(c@),
        }
    }
}

/// The command that the lowercase word `cmd` names, with argument `arg`;
/// a model command without an argument gets the empty name.
pub open spec fn named_command(cmd: Seq<char>, arg: Option<Seq<char>>) -> SlashModel {
    if cmd == "help"@ || cmd == "h"@ {
        SlashModel::Help
    } else if cmd == "clear"@ {
        SlashModel::Clear
    } else if cmd == "model"@ || cmd == "m"@ {
        SlashModel::Model(
            match arg {
                Some(x) => x,
                None => Seq::<char>::empty(),
            },
        )
    } else if cmd == "compact"@ {
        SlashModel::Compact
    } else if cmd == "save"@ {
        SlashModel::Save
    } else if cmd == "quit"@ || cmd == "q"@ || cmd == "exit"@ {
        SlashModel::Quit
    } else {
        SlashModel::Unknown(cmd)
    }
}

/// The command that a lowercased command word names, with its argument.
pub fn slash_command_from(cmd: String, arg: Option<String>) -> (r: SlashCommand)
    ensures
        r@ == named_command(
            cmd@,
            match arg {
                Some(a) => Some(a@),
                None => None,
            },
        ),
{
    let c = cmd.as_str();
    if str_eq(c, "help") || str_eq(c, "h") {
        SlashCommand::Help
    } else if str_eq(c, "clear") {
        SlashCommand::Clear
    } else if str_eq(c, "model") || str_eq(c, "m") {
        match arg {
            Some(a) => SlashCommand::Model(a),
            None => SlashCommand::Model(String::new()),
        }
    } else if str_eq(c, "compact") {
        SlashCommand::Compact
    } else if str_eq(c, "save") {
        SlashCommand::Save
    } else if str_eq(c, "quit") || str_eq(c, "q") || str_eq(c, "exit") {
        SlashCommand::Quit
    } else {
        SlashCommand::Unknown(cmd)
    }
}

/// Parses a line that starts with `/` as a command; other lines are no command.
/// The command word is compared in lowercase.
pub fn parse_slash_command(input: &str) -> (r: Option<SlashCommand>)
    ensures
        (input@.len() == 0 || input@[0] != '/') <==> r is None,
        r matches Some(cmd) ==> cmd@ == named_command(
            lowercase(command_word(input@)),
            command_arg(input@),
        ),
{
    let v = chars_of(input);
    if v.len() == 0 || v[0] != '/' {
        return None;
    }
    let ghost rest = v@.skip(1);
    proof {
        lemma_space_from(rest, 0);
    }
    let mut k: usize = 1;
    while k < v.len() && v[k] != ' '
        invariant
            1 <= k <= v.len(),
            v@ == input@,
            rest == v@.skip(1),
            space_from(rest, 0) == space_from(rest, k - 1),
        decreases v.len() - k,
    {
        k = k + 1;
    }
    proof {
        lemma_space_from(rest, (k - 1) as int);
        assert(space_from(rest, 0) == k - 1);
    }
    let word = string_from_range(&v, 1, k);
    let arg = if k < v.len() {
        Some(string_from_range(&v, k + 1, v.len()))
    } else {
        None
    };
    proof {
        assert(word@ =~= rest.take(k - 1));
        if k < v.len() {
            assert(v@.subrange(k + 1, v.len() as int) =~= rest.skip(k as int));
        }
    }
    let cmd = to_lowercase(word.as_str());
    Some(slash_command_from(cmd, arg))
}

/// Whether byte offset `b` of `s` is where a character starts, or the end.
pub fn is_char_boundary(s: &str, b: usize) -> (r: bool)
    ensures
        r == is_boundary(s@, b as int),
{
    let v = chars_of(s);
    let mut i: usize = 0;
    let mut off: usize = 0;
    proof {
        assert(v@.take(0) =~= Seq::<char>::empty());
        assert(vstd::utf8::encode_utf8(Seq::<char>::empty()) =~= Seq::<u8>::empty());
    }
    while i < v.len() && off < b
        invariant
            i <= v@.len(),
            v@ == s@,
            off == byte_len(v@.take(i as int)),
            off <= b,
            forall|k: int| 0 <= k < i ==> #[trigger] byte_len(v@.take(k)) < b,
        decreases v.len() - i,
    {
        let w = char_byte_width(v[i]);
        proof {
            lemma_byte_len_take_step(v@, i as int);
        }
        if w > b - off {
            proof {
                assert forall|k: int| 0 <= k <= v@.len() implies #[trigger] byte_len(v@.take(k)) != b by {
                    if k > i + 1 {
                        lemma_prefix_bytes_strict(v@, i + 1, k);
                    }
                }
            }
            return false;
        }
        off = off + w;
        i = i + 1;
    }
    if off == b {
        true
    } else {
        proof {
            assert(i == v@.len());
            assert(forall|k: int| 0 <= k <= v@.len() ==> #[trigger] byte_len(v@.take(k)) != b);
        }
        false
    }
}

/// What the input area shows: the text, or a hint when it is empty and
/// active, and whether the text is drawn dimmed.
pub struct InputView {
    pub text: String,
    pub dimmed: bool,
}

pub fn input_view(input: &str, is_active: bool) -> (r: InputView)
    ensures
        r.text@ == if input@.len() == 0 && is_active {
            "Type a message... (/help for commands)"@
        } else {
            input@
        },
        r.dimmed == (input@.len() == 0 || !is_active),
{
    let empty = input.is_empty();
    let text = if empty && is_active {
        "Type a message... (/help for commands)".to_owned()
    } else {
        input.to_owned()
    };
    InputView { text, dimmed: empty || !is_active }
}

/// The screen column of the cursor: one past the area's border, plus the
/// cursor's byte offset taken as a 16-bit number.
pub fn cursor_column(area_x: u16, cursor: usize) -> (c: u16)
    requires
        area_x + 1 + (cursor as int) % 65536 <= u16::MAX,
    ensures
        c == area_x + 1 + (cursor as int) % 65536,
{
    let low = (cursor % 65536) as u16;
    area_x + 1 + low
}

/// Input buffer state.
pub struct InputState {
    pub buffer: String,
    /// Byte offset of the cursor in the buffer
    pub cursor: usize,
    /// Previous inputs, oldest first
    pub history: Vec<String>,
    pub history_index: Option<usize>,
}

/// The texts of the history.
pub open spec fn history_texts(h: Seq<String>) -> Seq<Seq<char>> {
    h.map_values(|s: String| s@)
}

/// The history and the position in it are the same in both states.
pub open spec fn same_history(a: InputState, b: InputState) -> bool {
    b.history == a.history && b.history_index == a.history_index
}

/// A character can be inserted: the cursor is at a character boundary.
pub open spec fn can_insert(a: InputState) -> bool {
    is_boundary(a.buffer@, a.cursor as int)
}

/// `c` went in at the cursor, which moved one byte on.
pub open spec fn inserted(a: InputState, c: char, b: InputState) -> bool {
    let k = char_index(a.buffer@, a.cursor as int);
    &&& b.buffer@ == a.buffer@.take(k) + seq![c] + a.buffer@.skip(k)
    &&& b.cursor == a.cursor + 1
    &&& same_history(a, b)
}

/// Typing an ASCII character where the cursor is on a character boundary
/// leaves the cursor on a boundary again, just after the character, within
/// the text.
pub proof fn law_insert_ascii_keeps_boundary(a: InputState, c: char, b: InputState)
    requires
        a.wf(),
        can_insert(a),
        inserted(a, c, b),
        (c as u32) < 0x80,
    ensures
        b.wf(),
        is_boundary(b.buffer@, b.cursor as int),
        can_insert(b),
{
    let s = a.buffer@;
    lemma_char_index(s, a.cursor as int);
    let k = char_index(s, a.cursor as int);
    let t = b.buffer@;
    assert(t.take(k + 1) =~= s.take(k) + seq![c]);
    lemma_byte_len_concat(s.take(k), seq![c]);
    lemma_byte_len_single(c);
    assert(byte_len(t.take(k + 1)) == b.cursor);
    assert(is_boundary(t, b.cursor as int));
    assert(t =~= t.take(k + 1) + s.skip(k));
    lemma_byte_len_concat(t.take(k + 1), s.skip(k));
}

/// The byte before the cursor starts a character (or the cursor is at the start).
pub open spec fn can_delete_back(a: InputState) -> bool {
    a.cursor > 0 ==> is_boundary(a.buffer@, a.cursor - 1) && a.cursor - 1 < byte_len(a.buffer@)
}

/// The cursor moved back one byte and the character starting there left.
pub open spec fn deleted_back(a: InputState, b: InputState) -> bool {
    if a.cursor == 0 {
        b == a
    } else {
        let k = char_index(a.buffer@, a.cursor - 1);
        &&& b.buffer@ == a.buffer@.take(k) + a.buffer@.skip(k + 1)
        &&& b.cursor == a.cursor - 1
        &&& same_history(a, b)
    }
}

/// A cursor inside the text is at a character boundary.
pub open spec fn can_delete_forward(a: InputState) -> bool {
    a.cursor < byte_len(a.buffer@) ==> is_boundary(a.buffer@, a.cursor as int)
}

/// The character at the cursor left; at the end nothing changed.
pub open spec fn deleted_forward(a: InputState, b: InputState) -> bool {
    if a.cursor >= byte_len(a.buffer@) {
        b == a
    } else {
        let k = char_index(a.buffer@, a.cursor as int);
        &&& b.buffer@ == a.buffer@.take(k) + a.buffer@.skip(k + 1)
        &&& b.cursor == a.cursor
        &&& same_history(a, b)
    }
}

/// Only the cursor moved, to `to`.
pub open spec fn moved_to(a: InputState, to: int, b: InputState) -> bool {
    &&& b.cursor == to
    &&& b.buffer == a.buffer
    &&& same_history(a, b)
}

pub open spec fn moved_left(a: InputState, b: InputState) -> bool {
    moved_to(a, if a.cursor > 0 { a.cursor - 1 } else { 0 }, b)
}

pub open spec fn moved_right(a: InputState, b: InputState) -> bool {
    moved_to(a, if a.cursor < byte_len(a.buffer@) { a.cursor + 1 } else { a.cursor as int }, b)
}

/// The buffer is empty, the cursor at 0, and no history entry is recalled.
pub open spec fn cleared(a: InputState, b: InputState) -> bool {
    &&& b.buffer@ == Seq::<char>::empty()
    &&& b.cursor == 0
    &&& b.history_index is None
    &&& b.history == a.history
}

/// The buffer's text was taken, the buffer cleared, and a non-empty text
/// added to the history.
pub open spec fn submitted(a: InputState, text: Seq<char>, b: InputState) -> bool {
    &&& text == a.buffer@
    &&& b.buffer@ == Seq::<char>::empty()
    &&& b.cursor == 0
    &&& b.history_index is None
    &&& history_texts(b.history@) == if text.len() > 0 {
        history_texts(a.history@).push(text)
    } else {
        history_texts(a.history@)
    }
}

/// The previous history entry (the last one when none is recalled) is in
/// the buffer, with the cursor at its end.
pub open spec fn recalled_previous(a: InputState, b: InputState) -> bool {
    &&& b.history == a.history
    &&& a.history@.len() == 0 ==> b == a
    &&& a.history@.len() > 0 ==> {
        let idx = match a.history_index {
            Some(i) => if i > 0 { i - 1 } else { i as int },
            None => a.history@.len() - 1,
        };
        &&& b.history_index == Some(idx as usize)
        &&& b.buffer@ == a.history@[idx]@
        &&& b.cursor == byte_len(b.buffer@)
    }
}

/// The next history entry is in the buffer; past the last one the buffer
/// is empty and no entry is recalled.
pub open spec fn recalled_next(a: InputState, b: InputState) -> bool {
    &&& b.history == a.history
    &&& match a.history_index {
        Some(i) => if i + 1 < a.history@.len() {
            &&& b.history_index == Some((i + 1) as usize)
            &&& b.buffer@ == a.history@[i + 1]@
            &&& b.cursor == byte_len(b.buffer@)
        } else {
            &&& b.history_index is None
            &&& b.buffer@ == Seq::<char>::empty()
            &&& b.cursor == 0
        },
        None => b == a,
    }
}

/// The cursor is at a character boundary.
pub open spec fn at_boundary(a: InputState) -> bool {
    is_boundary(a.buffer@, a.cursor as int)
}

/// Everything from the cursor on was deleted.
pub open spec fn killed_line(a: InputState, b: InputState) -> bool {
    &&& b.buffer@ == a.buffer@.take(char_index(a.buffer@, a.cursor as int))
    &&& b.cursor == a.cursor
    &&& same_history(a, b)
}

/// The word before the cursor, with the spaces after it, was deleted.
pub open spec fn killed_word(a: InputState, b: InputState) -> bool {
    if a.cursor == 0 {
        b == a
    } else {
        let s = a.buffer@;
        let k = char_index(s, a.cursor as int);
        let j = word_start(s, k);
        &&& b.buffer@ == s.take(j) + s.skip(k)
        &&& b.cursor == byte_len(s.take(j))
        &&& same_history(a, b)
    }
}

/// Typing a character and then deleting backwards restores the buffer, the
/// cursor and the history: after an insertion the byte before the cursor
/// starts the inserted character, so a deletion can follow and removes it.
pub proof fn lemma_insert_then_delete(a: InputState, c: char, b: InputState, d: InputState)
    requires
        a.wf(),
        can_insert(a),
        inserted(a, c, b),
    ensures
        can_delete_back(b),
        deleted_back(b, d) ==> d.buffer@ == a.buffer@ && d.cursor == a.cursor && same_history(a, d),
{
    lemma_insert_remove(a.buffer@, a.cursor as int, c);
}

impl InputState {
    /// The cursor is within the buffer and the history position is an entry.
    pub open spec fn wf(&self) -> bool {
        &&& self.cursor <= byte_len(self.buffer@)
        &&& (self.history_index matches Some(i) ==> i < self.history@.len())
    }

    pub fn new() -> (r: Self)
        ensures
            r.wf(),
            r.buffer@ == Seq::<char>::empty(),
            r.cursor == 0,
            r.history@.len() == 0,
            r.history_index is None,
    {
        let r = InputState { buffer: String::new(), cursor: 0, history: Vec::new(), history_index: None };
        assert(vstd::utf8::encode_utf8(Seq::<char>::empty()) =~= Seq::<u8>::empty());
        r
    }

    /// Insert a character at the cursor and move past it.
    pub fn insert_char(&mut self, c: char)
        requires
            old(self).wf(),
            can_insert(*old(self)),
        ensures
            final(self).wf(),
            inserted(*old(self), c, *final(self)),
    {
        let v = chars_of(self.buffer.as_str());
        let k = char_index_of(&v, self.cursor);
        let mut nb = string_from_range(&v, 0, k);
        push_char(&mut nb, c);
        let rest = string_from_range(&v, k, v.len());
        nb.append(rest.as_str());
        // the new text exists, so its length, past the cursor, fits in usize
        let _len = crate::text::str_byte_len(nb.as_str());
        proof {
            let s = v@;
            lemma_char_index(s, self.cursor as int);
            assert(s.subrange(0, k as int) =~= s.take(k as int));
            assert(s.subrange(k as int, s.len() as int) =~= s.skip(k as int));
            assert(s =~= s.take(k as int) + s.skip(k as int));
            lemma_byte_len_concat(s.take(k as int), s.skip(k as int));
            lemma_byte_len_concat(s.take(k as int) + seq![c], s.skip(k as int));
            lemma_byte_len_concat(s.take(k as int), seq![c]);
            lemma_byte_len_single(c);
            assert(nb@ == s.take(k as int) + seq![c] + s.skip(k as int));
            assert(byte_len(nb@) == byte_len(s.take(k as int)) + byte_len(seq![c]) + byte_len(s.skip(k as int)));
            assert(self.cursor + 1 <= _len);
        }
        self.buffer = nb;
        self.cursor = self.cursor + 1;
    }

    /// Delete the character before the cursor (the one starting one byte
    /// before it) and move back one byte.
    pub fn delete_char(&mut self)
        requires
            old(self).wf(),
            can_delete_back(*old(self)),
        ensures
            final(self).wf(),
            deleted_back(*old(self), *final(self)),
    {
        if self.cursor > 0 {
            self.cursor = self.cursor - 1;
            self.remove_at_cursor();
        }
    }

    fn remove_at_cursor(&mut self)
        requires
            old(self).wf(),
            is_boundary(old(self).buffer@, old(self).cursor as int),
            old(self).cursor < byte_len(old(self).buffer@),
        ensures
            final(self).wf(),
            ({
                let s = old(self).buffer@;
                let k = char_index(s, old(self).cursor as int);
                final(self).buffer@ == s.take(k) + s.skip(k + 1)
            }),
            final(self).cursor == old(self).cursor,
            final(self).history == old(self).history,
            final(self).history_index == old(self).history_index,
    {
        let v = chars_of(self.buffer.as_str());
        let k = char_index_of(&v, self.cursor);
        proof {
            lemma_char_index(v@, self.cursor as int);
            if k == v.len() {
                assert(v@.take(k as int) =~= v@);
            }
        }
        let mut nb = string_from_range(&v, 0, k);
        let rest = string_from_range(&v, k + 1, v.len());
        nb.append(rest.as_str());
        // the new text exists, so its length, past the cursor, fits in usize
        let _len = crate::text::str_byte_len(nb.as_str());
        proof {
            let s = v@;
            assert(s.subrange(0, k as int) =~= s.take(k as int));
            assert(s.subrange(k + 1, s.len() as int) =~= s.skip(k + 1));
            assert(s =~= s.take(k as int) + s.skip(k as int));
            lemma_byte_len_concat(s.take(k as int), s.skip(k as int));
            assert(s.skip(k as int) =~= seq![s[k as int]] + s.skip(k + 1));
            lemma_byte_len_concat(seq![s[k as int]], s.skip(k + 1));
            lemma_byte_len_concat(s.take(k as int), s.skip(k + 1));
        }
        self.buffer = nb;
    }

    /// Delete the character at the cursor.
    pub fn delete_forward(&mut self)
        requires
            old(self).wf(),
            can_delete_forward(*old(self)),
        ensures
            final(self).wf(),
            deleted_forward(*old(self), *final(self)),
    {
        if self.cursor < str_byte_len(self.buffer.as_str()) {
            self.remove_at_cursor();
        }
    }

    /// Move the cursor back one byte.
    pub fn move_left(&mut self)
        requires
            old(self).wf(),
        ensures
            final(self).wf(),
            moved_left(*old(self), *final(self)),
    {
        if self.cursor > 0 {
            self.cursor = self.cursor - 1;
        }
    }

    /// Move the cursor forward one byte.
    pub fn move_right(&mut self)
        requires
            old(self).wf(),
        ensures
            final(self).wf(),
            moved_right(*old(self), *final(self)),
    {
        if self.cursor < str_byte_len(self.buffer.as_str()) {
            self.cursor = self.cursor + 1;
        }
    }

    /// Move the cursor to the start.
    pub fn move_home(&mut self)
        requires
            old(self).wf(),
        ensures
            final(self).wf(),
            moved_to(*old(self), 0, *final(self)),
    {
        self.cursor = 0;
    }

    /// Move the cursor to the end.
    pub fn move_end(&mut self)
        requires
            old(self).wf(),
        ensures
            final(self).wf(),
            moved_to(*old(self), byte_len(old(self).buffer@) as int, *final(self)),
    {
        self.cursor = str_byte_len(self.buffer.as_str());
    }

    /// Empty the buffer and leave the history.
    pub fn clear(&mut self)
        requires
            old(self).wf(),
        ensures
            final(self).wf(),
            cleared(*old(self), *final(self)),
    {
        self.buffer = String::new();
        self.cursor = 0;
        self.history_index = None;
        assert(vstd::utf8::encode_utf8(Seq::<char>::empty()) =~= Seq::<u8>::empty());
    }

    /// Take the buffer's text; a non-empty text is added to the history.
    pub fn submit(&mut self) -> (text: String)
        requires
            old(self).wf(),
        ensures
            final(self).wf(),
            submitted(*old(self), text@, *final(self)),
    {
        let text = self.buffer.clone();
        if !text.as_str().is_empty() {
            let ghost before = self.history@;
            self.history.push(text.clone());
            assert(history_texts(self.history@) =~= history_texts(before).push(text@));
        }
        self.clear();
        text
    }

    /// Recall the previous history entry (the last one when not browsing).
    pub fn history_up(&mut self)
        requires
            old(self).wf(),
        ensures
            final(self).wf(),
            recalled_previous(*old(self), *final(self)),
    {
        if self.history.len() == 0 {
            return;
        }
        let idx = match self.history_index {
            Some(i) => if i > 0 {
                i - 1
            } else {
                i
            },
            None => self.history.len() - 1,
        };
        self.history_index = Some(idx);
        self.buffer = self.history[idx].clone();
        self.cursor = str_byte_len(self.buffer.as_str());
    }

    /// Recall the next history entry, or leave the history with an empty buffer.
    pub fn history_down(&mut self)
        requires
            old(self).wf(),
        ensures
            final(self).wf(),
            recalled_next(*old(self), *final(self)),
    {
        match self.history_index {
            Some(i) => {
                if i < self.history.len() - 1 {
                    self.history_index = Some(i + 1);
                    self.buffer = self.history[i + 1].clone();
                    self.cursor = str_byte_len(self.buffer.as_str());
                } else {
                    self.history_index = None;
                    self.buffer = String::new();
                    self.cursor = 0;
                    assert(vstd::utf8::encode_utf8(Seq::<char>::empty()) =~= Seq::<u8>::empty());
                }
            },
            None => {},
        }
    }

    /// Delete everything from the cursor to the end.
    pub fn kill_line(&mut self)
        requires
            old(self).wf(),
            at_boundary(*old(self)),
        ensures
            final(self).wf(),
            killed_line(*old(self), *final(self)),
    {
        let v = chars_of(self.buffer.as_str());
        let k = char_index_of(&v, self.cursor);
        proof {
            lemma_char_index(v@, self.cursor as int);
            assert(v@.subrange(0, k as int) =~= v@.take(k as int));
        }
        self.buffer = string_from_range(&v, 0, k);
    }

    /// Delete the word before the cursor, with the spaces after it.
    pub fn kill_word_back(&mut self)
        requires
            old(self).wf(),
            at_boundary(*old(self)),
        ensures
            final(self).wf(),
            killed_word(*old(self), *final(self)),
    {
        if self.cursor == 0 {
            return;
        }
        let v = chars_of(self.buffer.as_str());
        let k = char_index_of(&v, self.cursor);
        proof {
            lemma_char_index(v@, self.cursor as int);
        }
        let mut end = k;
        while end > 0 && v[end - 1] == ' '
            invariant
                end <= k <= v@.len(),
                skip_spaces(v@, k as int) == skip_spaces(v@, end as int),
            decreases end,
        {
            end = end - 1;
        }
        let ghost e1 = end;
        while end > 0 && v[end - 1] != ' '
            invariant
                end <= e1 <= k <= v@.len(),
                e1 == skip_spaces(v@, k as int),
                skip_word(v@, e1 as int) == skip_word(v@, end as int),
            decreases end,
        {
            end = end - 1;
        }
        let mut nb = string_from_range(&v, 0, end);
        let rest = string_from_range(&v, k, v.len());
        nb.append(rest.as_str());
        let mut off: usize = 0;
        let mut i: usize = 0;
        proof {
            assert(v@.take(0) =~= Seq::<char>::empty());
            assert(vstd::utf8::encode_utf8(Seq::<char>::empty()) =~= Seq::<u8>::empty());
        }
        while i < end
            invariant
                i <= end <= k <= v@.len(),
                byte_len(v@.take(k as int)) <= usize::MAX,
                off == byte_len(v@.take(i as int)),
            decreases end - i,
        {
            proof {
                lemma_byte_len_take_step(v@, i as int);
                lemma_byte_len_single(v@[i as int]);
                if i + 1 < k {
                    lemma_prefix_bytes_strict(v@, i + 1, k as int);
                }
            }
            off = off + char_byte_width(v[i]);
            i = i + 1;
        }
        proof {
            let s = v@;
            assert(s.subrange(0, end as int) =~= s.take(end as int));
            assert(s.subrange(k as int, s.len() as int) =~= s.skip(k as int));
            assert(s =~= s.take(k as int) + s.skip(k as int));
            lemma_byte_len_concat(s.take(k as int), s.skip(k as int));
            lemma_byte_len_concat(s.take(end as int), s.skip(k as int));
            if end < k {
                lemma_prefix_bytes_strict(s, end as int, k as int);
            }
        }
        self.buffer = nb;
        self.cursor = off;
    }
}

/// Start of the run of spaces that ends at character index `e`.
pub open spec fn skip_spaces(s: Seq<char>, e: int) -> int
    decreases e,
{
    if e <= 0 || e > s.len() || s[e - 1] != ' ' {
        e
    } else {
        skip_spaces(s, e - 1)
    }
}

/// Start of the run of non-spaces that ends at character index `e`.
pub open spec fn skip_word(s: Seq<char>, e: int) -> int
    decreases e,
{
    if e <= 0 || e > s.len() || s[e - 1] == ' ' {
        e
    } else {
        skip_word(s, e - 1)
    }
}

/// Where the word before character index `k` starts, after skipping the
/// spaces that end at `k`.
pub open spec fn word_start(s: Seq<char>, k: int) -> int {
    skip_word(s, skip_spaces(s, k))
}

} // verus!
