//! Character-level text utilities with UTF-8 byte accounting.

use vstd::prelude::*;
use vstd::utf8::*;

verus! {

/// Number of bytes in the UTF-8 encoding of a character sequence.
pub open spec fn byte_len(s: Seq<char>) -> nat {
    encode_utf8(s).len()
}

/// Number of bytes in the UTF-8 encoding of one character.
pub open spec fn char_width(c: char) -> nat {
    encode_scalar(c as u32).len()
}

pub proof fn lemma_encode_concat(a: Seq<char>, b: Seq<char>)
    ensures
        encode_utf8(a + b) == encode_utf8(a) + encode_utf8(b),
    decreases a.len(),
{
    if a.len() == 0 {
        assert(a + b =~= b);
        assert(encode_utf8(a) =~= Seq::<u8>::empty());
        assert(encode_utf8(a) + encode_utf8(b) =~= encode_utf8(b));
    } else {
        assert((a + b).drop_first() =~= a.drop_first() + b);
        assert((a + b)[0] == a[0]);
        lemma_encode_concat(a.drop_first(), b);
        assert(encode_scalar(a[0] as u32) + (encode_utf8(a.drop_first()) + encode_utf8(b))
            =~= (encode_scalar(a[0] as u32) + encode_utf8(a.drop_first())) + encode_utf8(b));
    }
}

pub proof fn lemma_byte_len_concat(a: Seq<char>, b: Seq<char>)
    ensures
        byte_len(a + b) == byte_len(a) + byte_len(b),
{
    lemma_encode_concat(a, b);
}

pub proof fn lemma_byte_len_single(c: char)
    ensures
        byte_len(seq![c]) == char_width(c),
        1 <= char_width(c) <= 4,
        (c as u32) < 0x80 ==> char_width(c) == 1,
{
    assert(seq![c].drop_first() =~= Seq::<char>::empty());
    assert(encode_utf8(Seq::<char>::empty()) =~= Seq::<u8>::empty());
    assert(encode_utf8(seq![c]) =~= encode_scalar(c as u32) + Seq::<u8>::empty());
}

pub proof fn lemma_byte_len_push(s: Seq<char>, c: char)
    ensures
        byte_len(s.push(c)) == byte_len(s) + char_width(c),
{
    assert(s.push(c) =~= s + seq![c]);
    lemma_byte_len_concat(s, seq![c]);
    lemma_byte_len_single(c);
}

pub proof fn lemma_byte_len_take_step(s: Seq<char>, i: int)
    requires
        0 <= i < s.len(),
    ensures
        byte_len(s.take(i + 1)) == byte_len(s.take(i)) + char_width(s[i]),
{
    assert(s.take(i + 1) =~= s.take(i).push(s[i]));
    lemma_byte_len_push(s.take(i), s[i]);
}

pub proof fn lemma_byte_len_ge_len(s: Seq<char>)
    ensures
        byte_len(s) >= s.len(),
    decreases s.len(),
{
    if s.len() > 0 {
        let t = s.drop_last();
        assert(s =~= t.push(s.last()));
        lemma_byte_len_push(t, s.last());
        lemma_byte_len_single(s.last());
        lemma_byte_len_ge_len(t);
    } else {
        assert(encode_utf8(s) =~= Seq::<u8>::empty());
    }
}

/// Byte width of a character, computed from its scalar value.
pub fn char_byte_width(c: char) -> (w: usize)
    ensures
        w == char_width(c),
{
    proof {
        broadcast use vstd::utf8::char_is_scalar;
    }
    let v = c as u32;
    if v <= 0x7F {
        1
    } else if v <= 0x7FF {
        2
    } else if v <= 0xFFFF {
        3
    } else {
        4
    }
}

/// Byte length of a string slice (`str::len`). A string never holds more
/// than `isize::MAX` bytes, so the length is exact.
#[verifier::external_body]
pub(crate) fn str_byte_len(s: &str) -> (n: usize)
    ensures
        n == byte_len(s@),
{
    s.len()
}

/// Appends one character to a string (`String::push`).
#[verifier::external_body]
pub(crate) fn push_char(s: &mut String, c: char)
    ensures
        final(s)@ == old(s)@.push(c),
{
    s.push(c);
}

/// The characters of a string slice, in order.
pub fn chars_of(s: &str) -> (v: Vec<char>)
    ensures
        v@ == s@,
{
    let mut v: Vec<char> = Vec::new();
    for c in it: s.chars()
        invariant
            v@ == it.seq().take(it.index() as int),
    {
        v.push(c);
    }
    v
}


/// Builds a string from a character sequence.
pub fn string_from_chars(v: &Vec<char>) -> (s: String)
    ensures
        s@ == v@,
{
    let mut s = String::new();
    let mut i: usize = 0;
    while i < v.len()
        invariant
            i <= v.len(),
            s@ == v@.take(i as int),
        decreases v.len() - i,
    {
        push_char(&mut s, v[i]);
        assert(v@.take(i as int).push(v@[i as int]) =~= v@.take(i + 1));
        i = i + 1;
    }
    assert(v@.take(v.len() as int) =~= v@);
    s
}

/// Builds a string from a subrange of a character sequence.
pub fn string_from_range(v: &Vec<char>, lo: usize, hi: usize) -> (s: String)
    requires
        lo <= hi <= v.len(),
    ensures
        s@ == v@.subrange(lo as int, hi as int),
{
    let mut s = String::new();
    let mut i: usize = lo;
    while i < hi
        invariant
            lo <= i <= hi <= v.len(),
            s@ == v@.subrange(lo as int, i as int),
        decreases hi - i,
    {
        push_char(&mut s, v[i]);
        assert(v@.subrange(lo as int, i as int).push(v@[i as int]) =~= v@.subrange(lo as int, i + 1));
        i = i + 1;
    }
    s
}

/// Appends a string slice to a string.
pub fn append_str(s: &mut String, t: &str)
    ensures
        final(s)@ == old(s)@ + t@,
{
    s.append(t);
}

/// The concatenation of two string slices.
pub fn concat_str(a: &str, b: &str) -> (r: String)
    ensures
        r@ == a@ + b@,
{
    let mut s = a.to_owned();
    append_str(&mut s, b);
    s
}

// ---------------------------------------------------------------------------
// Decimal rendering
// ---------------------------------------------------------------------------

pub open spec fn digit_char(d: nat) -> char
    recommends
        d < 10,
{
    ((d + 48) as u8) as char
}

/// Decimal digits of a natural number, most significant first.
pub open spec fn decimal(n: nat) -> Seq<char>
    decreases n,
{
    if n < 10 {
        seq![digit_char(n)]
    } else {
        decimal(n / 10).push(digit_char(n % 10))
    }
}

/// Decimal rendering of a signed integer.
pub open spec fn signed_decimal(n: int) -> Seq<char> {
    if n < 0 {
        seq!['-'] + decimal((-n) as nat)
    } else {
        decimal(n as nat)
    }
}

pub proof fn lemma_decimal_ascii(n: nat)
    ensures
        decimal(n).len() >= 1,
        forall|i: int| 0 <= i < decimal(n).len() ==> '0' <= #[trigger] decimal(n)[i] <= '9',
    decreases n,
{
    if n >= 10 {
        lemma_decimal_ascii(n / 10);
    }
}

fn digit_of(d: u64) -> (c: char)
    requires
        d < 10,
    ensures
        c == digit_char(d as nat),
{
    let b: u8 = (d as u8) + 48;
    b as char
}

/// Appends the decimal rendering of `n`.
pub fn push_decimal(out: &mut String, n: u64)
    ensures
        final(out)@ == old(out)@ + decimal(n as nat),
    decreases n,
{
    if n >= 10 {
        push_decimal(out, n / 10);
    }
    let d = digit_of(n % 10);
    push_char(out, d);
    proof {
        if n >= 10 {
            assert(decimal(n as nat) == decimal((n / 10) as nat).push(digit_char((n % 10) as nat)));
        } else {
            assert(decimal(n as nat) == seq![digit_char(n as nat)]);
        }
    }
}

/// Appends the decimal rendering of a signed `n`.
pub fn push_signed_decimal(out: &mut String, n: i64)
    ensures
        final(out)@ == old(out)@ + signed_decimal(n as int),
{
    if n < 0 {
        push_char(out, '-');
        let m: u64 = if n == i64::MIN {
            9223372036854775808u64
        } else {
            (-n) as u64
        };
        push_decimal(out, m);
    } else {
        push_decimal(out, n as u64);
    }
}

/// Decimal rendering of `n` as a new string.
pub fn u64_to_string(n: u64) -> (s: String)
    ensures
        s@ == decimal(n as nat),
{
    let mut s = String::new();
    push_decimal(&mut s, n);
    s
}


// ---------------------------------------------------------------------------
// Lines (`str::lines`)
// ---------------------------------------------------------------------------

/// Index of the first `'\n'` at or after `i`, or `s.len()` when there is none.
pub open spec fn next_newline(s: Seq<char>, i: int) -> int
    decreases s.len() - i,
{
    if i >= s.len() {
        s.len() as int
    } else if s[i] == '\n' {
        i
    } else {
        next_newline(s, i + 1)
    }
}

/// Drops one trailing carriage return.
pub open spec fn strip_cr(t: Seq<char>) -> Seq<char> {
    if t.len() > 0 && t.last() == '\r' {
        t.drop_last()
    } else {
        t
    }
}

/// The lines of `s` from position `start`: pieces ending in `"\n"` lose it and
/// one `'\r'` before it; a final piece without a newline is kept as it is.
pub open spec fn lines_from(s: Seq<char>, start: int) -> Seq<Seq<char>>
    decreases s.len() - start,
{
    if start >= s.len() || start < 0 {
        seq![]
    } else {
        let j = next_newline(s, start);
        proof {
            lemma_next_newline_bounds(s, start);
        }
        if j < s.len() {
            seq![strip_cr(s.subrange(start, j))] + lines_from(s, j + 1)
        } else {
            seq![s.subrange(start, s.len() as int)]
        }
    }
}

/// The lines of a text, as `str::lines` yields them.
pub open spec fn lines(s: Seq<char>) -> Seq<Seq<char>> {
    lines_from(s, 0)
}

pub proof fn lemma_next_newline_found(s: Seq<char>, k: int, i: int)
    requires
        0 <= k <= i < s.len(),
        s[i] == '\n',
        forall|m: int| k <= m < i ==> s[m] != '\n',
    ensures
        next_newline(s, k) == i,
    decreases i - k,
{
    if k < i {
        lemma_next_newline_found(s, k + 1, i);
    }
}

pub proof fn lemma_next_newline_none(s: Seq<char>, k: int)
    requires
        0 <= k <= s.len(),
        forall|m: int| k <= m < s.len() ==> s[m] != '\n',
    ensures
        next_newline(s, k) == s.len(),
    decreases s.len() - k,
{
    if k < s.len() {
        lemma_next_newline_none(s, k + 1);
    }
}

pub proof fn lemma_next_newline_bounds(s: Seq<char>, k: int)
    requires
        0 <= k <= s.len(),
    ensures
        k <= next_newline(s, k) <= s.len(),
        next_newline(s, k) < s.len() ==> s[next_newline(s, k)] == '\n',
        forall|m: int| k <= m < next_newline(s, k) ==> s[m] != '\n',
    decreases s.len() - k,
{
    if k < s.len() && s[k] != '\n' {
        lemma_next_newline_bounds(s, k + 1);
    }
}

pub proof fn lemma_byte_len_subrange(s: Seq<char>, a: int, b: int)
    requires
        0 <= a <= b <= s.len(),
    ensures
        byte_len(s.subrange(a, b)) <= byte_len(s),
{
    assert(s =~= s.take(a) + s.subrange(a, b) + s.skip(b));
    lemma_byte_len_concat(s.take(a) + s.subrange(a, b), s.skip(b));
    lemma_byte_len_concat(s.take(a), s.subrange(a, b));
}

pub proof fn lemma_byte_len_strip_cr(t: Seq<char>)
    ensures
        byte_len(strip_cr(t)) <= byte_len(t),
{
    if t.len() > 0 && t.last() == '\r' {
        lemma_byte_len_subrange(t, 0, t.len() - 1);
        assert(t.subrange(0, t.len() - 1) =~= t.drop_last());
    }
}

/// Every line of a text is no longer, in bytes, than the text.
pub proof fn lemma_lines_from_byte_len(s: Seq<char>, start: int)
    ensures
        forall|i: int| 0 <= i < lines_from(s, start).len() ==> byte_len(#[trigger] lines_from(s, start)[i]) <= byte_len(s),
    decreases s.len() - start,
{
    if 0 <= start < s.len() {
        let j = next_newline(s, start);
        lemma_next_newline_bounds(s, start);
        if j < s.len() {
            lemma_lines_from_byte_len(s, j + 1);
            lemma_byte_len_subrange(s, start, j);
            lemma_byte_len_strip_cr(s.subrange(start, j));
            let rest = lines_from(s, j + 1);
            assert forall|i: int| 0 <= i < lines_from(s, start).len() implies byte_len(#[trigger] lines_from(s, start)[i]) <= byte_len(s) by {
                if i > 0 {
                    assert(lines_from(s, start)[i] == rest[i - 1]);
                }
            }
        } else {
            lemma_byte_len_subrange(s, start, s.len() as int);
        }
    }
}

fn strip_cr_exec(v: &Vec<char>, lo: usize, hi: usize) -> (s: String)
    requires
        lo <= hi <= v.len(),
    ensures
        s@ == strip_cr(v@.subrange(lo as int, hi as int)),
{
    if hi > lo && v[hi - 1] == '\r' {
        let r = string_from_range(v, lo, hi - 1);
        assert(v@.subrange(lo as int, hi as int).drop_last() =~= v@.subrange(lo as int, hi - 1));
        r
    } else {
        string_from_range(v, lo, hi)
    }
}

/// Splits a character sequence into lines (`str::lines`).
pub fn split_lines_chars(v: &Vec<char>) -> (out: Vec<String>)
    ensures
        out@.len() == lines(v@).len(),
        forall|i: int| 0 <= i < out@.len() ==> #[trigger] out@[i]@ == lines(v@)[i],
{
    let ghost s = v@;
    let mut out: Vec<String> = Vec::new();
    let mut start: usize = 0;
    let mut i: usize = 0;
    while i < v.len()
        invariant
            s == v@,
            start <= i <= v.len(),
            forall|m: int| start <= m < i ==> s[m] != '\n',
            out@.len() + lines_from(s, start as int).len() == lines(s).len(),
            forall|k: int| 0 <= k < out@.len() ==> #[trigger] out@[k]@ == lines(s)[k],
            forall|k: int| 0 <= k < lines_from(s, start as int).len() ==>
                #[trigger] lines_from(s, start as int)[k] == lines(s)[out@.len() + k],
        decreases v.len() - i,
    {
        if v[i] == '\n' {
            proof {
                lemma_next_newline_found(s, start as int, i as int);
            }
            let line = strip_cr_exec(v, start, i);
            let ghost old_len = out@.len();
            let ghost rest = lines_from(s, start as int);
            assert(rest == seq![strip_cr(s.subrange(start as int, i as int))] + lines_from(s, i + 1));
            assert(rest[0] == strip_cr(s.subrange(start as int, i as int)));
            out.push(line);
            assert forall|k: int| 0 <= k < lines_from(s, i + 1).len() implies
                #[trigger] lines_from(s, i + 1)[k] == lines(s)[out@.len() + k] by {
                assert(lines_from(s, i + 1)[k] == rest[k + 1]);
            }
            start = i + 1;
        }
        i = i + 1;
    }
    if start < v.len() {
        proof {
            lemma_next_newline_none(s, start as int);
        }
        let line = string_from_range(v, start, v.len());
        let ghost rest = lines_from(s, start as int);
        let ghost old_out = out@;
        assert(rest == seq![s.subrange(start as int, s.len() as int)]);
        assert(rest[0] == lines(s)[old_out.len() as int]);
        out.push(line);
        assert forall|k: int| 0 <= k < out@.len() implies #[trigger] out@[k]@ == lines(s)[k] by {
            if k < old_out.len() {
                assert(out@[k] == old_out[k]);
            }
        }
    }
    out
}

/// Splits a string into lines (`str::lines`).
pub fn split_lines(t: &str) -> (out: Vec<String>)
    ensures
        out@.len() == lines(t@).len(),
        forall|i: int| 0 <= i < out@.len() ==> #[trigger] out@[i]@ == lines(t@)[i],
{
    let v = chars_of(t);
    split_lines_chars(&v)
}

// ---------------------------------------------------------------------------
// Whitespace trimming (`str::trim`)
// ---------------------------------------------------------------------------

/// The Unicode `White_Space` property, which `char::is_whitespace` tests.
pub open spec fn is_whitespace(c: char) -> bool {
    let v = c as u32;
    ||| 0x09 <= v <= 0x0D
    ||| v == 0x20
    ||| v == 0x85
    ||| v == 0xA0
    ||| v == 0x1680
    ||| 0x2000 <= v <= 0x200A
    ||| v == 0x2028
    ||| v == 0x2029
    ||| v == 0x202F
    ||| v == 0x205F
    ||| v == 0x3000
}

pub fn is_whitespace_exec(c: char) -> (b: bool)
    ensures
        b == is_whitespace(c),
{
    let v = c as u32;
    (0x09 <= v && v <= 0x0D) || v == 0x20 || v == 0x85 || v == 0xA0 || v == 0x1680 || (0x2000 <= v
        && v <= 0x200A) || v == 0x2028 || v == 0x2029 || v == 0x202F || v == 0x205F || v == 0x3000
}

/// Index of the first non-whitespace character, or the length.
pub open spec fn trim_start_index(s: Seq<char>, i: int) -> int
    decreases s.len() - i,
{
    if i >= s.len() {
        s.len() as int
    } else if is_whitespace(s[i]) {
        trim_start_index(s, i + 1)
    } else {
        i
    }
}

/// One past the last non-whitespace character at or after `lo`, or `lo`.
pub open spec fn trim_end_index(s: Seq<char>, lo: int, j: int) -> int
    decreases j - lo,
{
    if j <= lo {
        lo
    } else if is_whitespace(s[j - 1]) {
        trim_end_index(s, lo, j - 1)
    } else {
        j
    }
}

/// `s` without leading and trailing whitespace.
pub open spec fn trim(s: Seq<char>) -> Seq<char> {
    let lo = trim_start_index(s, 0);
    s.subrange(lo, trim_end_index(s, lo, s.len() as int))
}

pub proof fn lemma_trim_start_bounds(s: Seq<char>, i: int)
    requires
        0 <= i <= s.len(),
    ensures
        i <= trim_start_index(s, i) <= s.len(),
    decreases s.len() - i,
{
    if i < s.len() && is_whitespace(s[i]) {
        lemma_trim_start_bounds(s, i + 1);
    }
}

pub proof fn lemma_trim_end_bounds(s: Seq<char>, lo: int, j: int)
    requires
        0 <= lo <= j <= s.len(),
    ensures
        lo <= trim_end_index(s, lo, j) <= j,
    decreases j - lo,
{
    if j > lo && is_whitespace(s[j - 1]) {
        lemma_trim_end_bounds(s, lo, j - 1);
    }
}

/// Trims leading and trailing whitespace from a character vector range.
pub fn trim_range(v: &Vec<char>, lo0: usize, hi0: usize) -> (s: String)
    requires
        lo0 <= hi0 <= v.len(),
    ensures
        s@ == trim(v@.subrange(lo0 as int, hi0 as int)),
{
    let ghost t = v@.subrange(lo0 as int, hi0 as int);
    let mut lo = lo0;
    while lo < hi0 && is_whitespace_exec(v[lo])
        invariant
            lo0 <= lo <= hi0 <= v.len(),
            t == v@.subrange(lo0 as int, hi0 as int),
            trim_start_index(t, (lo - lo0) as int) == trim_start_index(t, 0),
        decreases hi0 - lo,
    {
        assert(t[(lo - lo0) as int] == v@[lo as int]);
        lo = lo + 1;
    }
    proof {
        lemma_trim_start_bounds(t, (lo - lo0) as int);
    }
    let mut hi = hi0;
    while hi > lo && is_whitespace_exec(v[hi - 1])
        invariant
            lo0 <= lo <= hi <= hi0 <= v.len(),
            t == v@.subrange(lo0 as int, hi0 as int),
            lo - lo0 == trim_start_index(t, 0),
            trim_end_index(t, (lo - lo0) as int, (hi - lo0) as int) == trim_end_index(
                t,
                (lo - lo0) as int,
                t.len() as int,
            ),
        decreases hi - lo,
    {
        assert(t[(hi - 1 - lo0) as int] == v@[hi - 1]);
        hi = hi - 1;
    }
    assert(t.subrange((lo - lo0) as int, (hi - lo0) as int) =~= v@.subrange(lo as int, hi as int));
    string_from_range(v, lo, hi)
}

/// `str::trim`.
pub fn trim_str(t: &str) -> (s: String)
    ensures
        s@ == trim(t@),
{
    let v = chars_of(t);
    assert(v@.subrange(0, v@.len() as int) =~= v@);
    trim_range(&v, 0, v.len())
}


// ---------------------------------------------------------------------------
// Substring search
// ---------------------------------------------------------------------------

/// `p` occurs in `h` starting at index `i`.
pub open spec fn occurs_at(h: Seq<char>, p: Seq<char>, i: int) -> bool {
    0 <= i && i + p.len() <= h.len() && h.subrange(i, i + p.len()) == p
}

/// `p` is a substring of `h`.
pub open spec fn contains(h: Seq<char>, p: Seq<char>) -> bool {
    exists|i: int| occurs_at(h, p, i)
}

/// Smallest index `j >= i` at which `p` occurs in `h`, or `-1`.
pub open spec fn first_occurrence(h: Seq<char>, p: Seq<char>, i: int) -> int
    decreases h.len() + 1 - i,
{
    if i < 0 || i + p.len() > h.len() {
        -1
    } else if occurs_at(h, p, i) {
        i
    } else {
        first_occurrence(h, p, i + 1)
    }
}

pub proof fn lemma_first_occurrence(h: Seq<char>, p: Seq<char>, i: int)
    requires
        0 <= i,
    ensures
        first_occurrence(h, p, i) == -1 || (i <= first_occurrence(h, p, i) && occurs_at(
            h,
            p,
            first_occurrence(h, p, i),
        )),
        forall|k: int|
            i <= k && (first_occurrence(h, p, i) == -1 || k < first_occurrence(h, p, i))
                ==> !occurs_at(h, p, k),
    decreases h.len() + 1 - i,
{
    if i + p.len() <= h.len() && !occurs_at(h, p, i) {
        lemma_first_occurrence(h, p, i + 1);
    }
}

pub proof fn lemma_contains_first(h: Seq<char>, p: Seq<char>)
    ensures
        contains(h, p) <==> first_occurrence(h, p, 0) >= 0,
{
    lemma_first_occurrence(h, p, 0);
    if contains(h, p) {
        let k = choose|k: int| occurs_at(h, p, k);
        assert(occurs_at(h, p, k));
    }
}

/// Number of non-overlapping occurrences of a non-empty `p` from index `i`,
/// scanning left to right.
pub open spec fn count_from(h: Seq<char>, p: Seq<char>, i: int) -> nat
    recommends
        p.len() > 0,
    decreases h.len() - i,
{
    let j = first_occurrence(h, p, i);
    if i < 0 || j < 0 || p.len() == 0 {
        0
    } else {
        proof {
            lemma_first_occurrence(h, p, i);
        }
        1 + count_from(h, p, j + p.len())
    }
}

/// What `str::matches(..).count()` returns: an empty pattern matches at every
/// character boundary.
pub open spec fn count_matches(h: Seq<char>, p: Seq<char>) -> nat {
    if p.len() == 0 {
        h.len() + 1
    } else {
        count_from(h, p, 0)
    }
}

/// What `str::replacen(p, r, 1)` returns: the first occurrence replaced.
pub open spec fn replace_first(h: Seq<char>, p: Seq<char>, r: Seq<char>) -> Seq<char> {
    let j = first_occurrence(h, p, 0);
    if j < 0 {
        h
    } else {
        h.take(j) + r + h.skip(j + p.len())
    }
}

/// Whether `p` occurs in `h` at `i`.
pub fn occurs_at_exec(h: &Vec<char>, p: &Vec<char>, i: usize) -> (b: bool)
    ensures
        b == occurs_at(h@, p@, i as int),
{
    if i > h.len() || p.len() > h.len() - i {
        return false;
    }
    let mut k: usize = 0;
    while k < p.len()
        invariant
            i + p.len() <= h.len(),
            k <= p.len(),
            forall|m: int| 0 <= m < k ==> h@[i + m] == p@[m],
        decreases p.len() - k,
    {
        if h[i + k] != p[k] {
            assert(h@.subrange(i as int, i + p.len())[k as int] != p@[k as int]);
            return false;
        }
        k = k + 1;
    }
    assert(h@.subrange(i as int, i + p.len()) =~= p@);
    true
}

/// First occurrence of `p` in `h` at or after `i`.
pub fn find_from(h: &Vec<char>, p: &Vec<char>, i: usize) -> (r: Option<usize>)
    ensures
        match r {
            Some(j) => j as int == first_occurrence(h@, p@, i as int),
            None => first_occurrence(h@, p@, i as int) == -1,
        },
{
    if p.len() == 0 {
        if i <= h.len() {
            assert(h@.subrange(i as int, i as int) =~= p@);
            return Some(i);
        } else {
            return None;
        }
    }
    let mut k = i;
    while k <= h.len() && p.len() <= h.len() - k
        invariant
            i <= k,
            p.len() > 0,
            first_occurrence(h@, p@, i as int) == first_occurrence(h@, p@, k as int),
        decreases h.len() + 1 - k,
    {
        if occurs_at_exec(h, p, k) {
            return Some(k);
        }
        k = k + 1;
    }
    None
}

/// `str::contains` for a string pattern.
pub fn contains_exec(h: &Vec<char>, p: &Vec<char>) -> (b: bool)
    ensures
        b == contains(h@, p@),
{
    proof {
        lemma_contains_first(h@, p@);
    }
    find_from(h, p, 0).is_some()
}

/// `str::matches(p).count()`.
pub fn count_matches_exec(h: &Vec<char>, p: &Vec<char>) -> (n: usize)
    requires
        h.len() < usize::MAX,
    ensures
        n == count_matches(h@, p@),
{
    if p.len() == 0 {
        return h.len() + 1;
    }
    let mut n: usize = 0;
    let mut i: usize = 0;
    while i <= h.len()
        invariant
            p.len() > 0,
            n + count_from(h@, p@, i as int) == count_from(h@, p@, 0),
            n <= i,
        decreases h.len() + 1 - i,
    {
        match find_from(h, p, i) {
            Some(j) => {
                proof {
                    lemma_first_occurrence(h@, p@, i as int);
                }
                n = n + 1;
                i = j + p.len();
            },
            None => {
                return n;
            },
        }
    }
    proof {
        lemma_first_occurrence(h@, p@, i as int);
    }
    n
}

/// `str::replacen(p, r, 1)`.
pub fn replace_first_exec(h: &Vec<char>, p: &Vec<char>, r: &Vec<char>) -> (out: Vec<char>)
    ensures
        out@ == replace_first(h@, p@, r@),
{
    match find_from(h, p, 0) {
        None => h.clone(),
        Some(j) => {
            proof {
                lemma_first_occurrence(h@, p@, 0);
            }
            let mut out: Vec<char> = Vec::new();
            let mut k: usize = 0;
            while k < j
                invariant
                    k <= j <= h.len(),
                    out@ == h@.take(k as int),
                decreases j - k,
            {
                out.push(h[k]);
                assert(h@.take(k as int).push(h@[k as int]) =~= h@.take(k + 1));
                k = k + 1;
            }
            let mut m: usize = 0;
            while m < r.len()
                invariant
                    m <= r.len(),
                    out@ == h@.take(j as int) + r@.take(m as int),
                decreases r.len() - m,
            {
                out.push(r[m]);
                assert(r@.take(m as int).push(r@[m as int]) =~= r@.take(m + 1));
                assert(h@.take(j as int) + r@.take(m + 1) =~= (h@.take(j as int) + r@.take(
                    m as int,
                )).push(r@[m as int]));
                m = m + 1;
            }
            assert(r@.take(r.len() as int) =~= r@);
            let mut q: usize = j + p.len();
            let ghost base = out@;
            while q < h.len()
                invariant
                    j + p.len() <= q <= h.len(),
                    base == h@.take(j as int) + r@,
                    out@ == base + h@.subrange(j + p.len(), q as int),
                decreases h.len() - q,
            {
                out.push(h[q]);
                assert(h@.subrange(j + p.len(), q as int).push(h@[q as int]) =~= h@.subrange(
                    j + p.len(),
                    q + 1,
                ));
                assert(base + h@.subrange(j + p.len(), q + 1) =~= (base + h@.subrange(
                    j + p.len(),
                    q as int,
                )).push(h@[q as int]));
                q = q + 1;
            }
            assert(h@.subrange(j + p.len(), h.len() as int) =~= h@.skip(j + p.len()));
            out
        },
    }
}

/// `p` is a prefix of `h`.
pub open spec fn starts_with(h: Seq<char>, p: Seq<char>) -> bool {
    p.len() <= h.len() && h.take(p.len() as int) == p
}

/// `p` is a suffix of `h`.
pub open spec fn ends_with(h: Seq<char>, p: Seq<char>) -> bool {
    p.len() <= h.len() && h.skip(h.len() - p.len()) == p
}

pub fn starts_with_exec(h: &Vec<char>, p: &Vec<char>) -> (b: bool)
    ensures
        b == starts_with(h@, p@),
{
    let b = occurs_at_exec(h, p, 0);
    proof {
        if p@.len() <= h@.len() {
            assert(h@.subrange(0, p@.len() as int) =~= h@.take(p@.len() as int));
        }
    }
    b
}

/// `b` is a character boundary of `s`: some prefix of `s` takes exactly `b` bytes.
pub open spec fn is_boundary(s: Seq<char>, b: int) -> bool {
    exists|k: int| 0 <= k <= s.len() && #[trigger] byte_len(s.take(k)) == b
}

/// `k` characters of `s` are the longest prefix of at most `b` bytes.
pub open spec fn longest_within(s: Seq<char>, b: int, k: int) -> bool {
    &&& 0 <= k <= s.len()
    &&& byte_len(s.take(k)) <= b
    &&& (k == s.len() || byte_len(s.take(k + 1)) > b)
}

/// The longest prefix of `s` that takes at most `b` bytes; it ends on a
/// character boundary.
pub fn prefix_within(s: &str, b: usize) -> (r: String)
    ensures
        exists|k: int| longest_within(s@, b as int, k) && r@ == s@.take(k),
{
    let v = chars_of(s);
    let mut i: usize = 0;
    let mut off: usize = 0;
    proof {
        assert(v@.take(0) =~= Seq::<char>::empty());
        assert(encode_utf8(Seq::<char>::empty()) =~= Seq::<u8>::empty());
    }
    while i < v.len()
        invariant
            v@ == s@,
            i <= v.len(),
            off == byte_len(v@.take(i as int)),
            off <= b,
        decreases v.len() - i,
    {
        let w = char_byte_width(v[i]);
        proof {
            lemma_byte_len_take_step(v@, i as int);
        }
        if w > b - off {
            let r = string_from_range(&v, 0, i);
            assert(v@.subrange(0, i as int) =~= s@.take(i as int));
            assert(longest_within(s@, b as int, i as int));
            return r;
        }
        off = off + w;
        i = i + 1;
    }
    let r = string_from_range(&v, 0, i);
    assert(v@.subrange(0, i as int) =~= s@.take(i as int));
    assert(longest_within(s@, b as int, i as int));
    r
}

/// Strict lexicographic order on character sequences, by scalar value. It is
/// the order of `String`'s `Ord`, since UTF-8 keeps the order of scalars.
pub open spec fn seq_lt(a: Seq<char>, b: Seq<char>) -> bool
    decreases a.len(),
{
    if a.len() == 0 {
        b.len() > 0
    } else if b.len() == 0 {
        false
    } else if a[0] != b[0] {
        (a[0] as u32) < (b[0] as u32)
    } else {
        seq_lt(a.drop_first(), b.drop_first())
    }
}

/// Texts in non-decreasing order.
pub open spec fn sorted_texts(s: Seq<Seq<char>>) -> bool {
    forall|i: int, j: int| 0 <= i < j < s.len() ==> s[i] == s[j] || seq_lt(s[i], s[j])
}

/// The texts of a vector of strings.
pub open spec fn texts(v: Seq<String>) -> Seq<Seq<char>> {
    v.map_values(|s: String| s@)
}

/// `slice::sort` on strings: the same strings in non-decreasing order.
#[verifier::external_body]
pub(crate) fn sort_strings(v: &mut Vec<String>)
    ensures
        texts(final(v)@).to_multiset() == texts(old(v)@).to_multiset(),
        sorted_texts(texts(final(v)@)),
{
    v.sort();
}

/// Texts joined with a separator between them.
pub open spec fn join_texts(ls: Seq<Seq<char>>, sep: Seq<char>) -> Seq<char>
    decreases ls.len(),
{
    if ls.len() == 0 {
        Seq::empty()
    } else if ls.len() == 1 {
        ls[0]
    } else {
        join_texts(ls.drop_last(), sep) + sep + ls.last()
    }
}

/// Joins strings with a separator (`[String]::join`).
pub fn join_strings(v: &Vec<String>, sep: &str) -> (r: String)
    ensures
        r@ == join_texts(texts(v@), sep@),
{
    let ghost tv = texts(v@);
    let mut r = String::new();
    let mut i: usize = 0;
    while i < v.len()
        invariant
            i <= v@.len(),
            tv == texts(v@),
            r@ == join_texts(tv.take(i as int), sep@),
        decreases v.len() - i,
    {
        if i > 0 {
            append_str(&mut r, sep);
        }
        append_str(&mut r, v[i].as_str());
        proof {
            let t = tv.take(i + 1);
            assert(t.drop_last() =~= tv.take(i as int));
            assert(t.last() == tv[i as int]);
            if i == 0 {
                assert(r@ =~= t[0]);
            }
        }
        i = i + 1;
    }
    assert(tv.take(v@.len() as int) =~= tv);
    r
}

/// Unicode lowercase mapping of a whole string, as `str::to_lowercase` computes it.
pub uninterp spec fn lowercase(s: Seq<char>) -> Seq<char>;

/// `str::to_lowercase`: the result is the lowercase mapping of the argument.
#[verifier::external_body]
pub(crate) fn to_lowercase(s: &str) -> (r: String)
    ensures
        r@ == lowercase(s@),
{
    s.to_lowercase()
}

} // verus!
