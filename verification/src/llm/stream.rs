//! Framing of the server's streamed answer: newline-delimited JSON chunks,
//! and the events each chunk stands for.

use vstd::prelude::*;

use crate::json::JsonModel;
use crate::llm::types::{calls_model, ChatStreamChunk, StreamEvent, ToolCall, UsageStats};
use crate::text::{
    append_str, chars_of, lemma_next_newline_bounds, lemma_next_newline_found,
    lemma_next_newline_none, next_newline, string_from_range, trim, trim_range,
};

verus! {

/// Model of a stream event.
pub enum StreamEventModel {
    TextDelta(Seq<char>),
    ToolCall(Seq<char>, JsonModel),
    Done(UsageStats),
    Error(Seq<char>),
}

impl View for StreamEvent {
    type V = StreamEventModel;

    open spec fn view(&self) -> StreamEventModel {
        match self {
            StreamEvent::TextDelta(t) => StreamEventModel::TextDelta(t@),
            StreamEvent::ToolCall(tc) => StreamEventModel::ToolCall(tc.name@, tc.arguments@),
            StreamEvent::Done(u) => StreamEventModel::Done(*u),
            StreamEvent::Error(e) => StreamEventModel::Error(e@),
        }
    }
}

pub open spec fn events_model(es: Seq<StreamEvent>) -> Seq<StreamEventModel> {
    es.map_values(|e: StreamEvent| e@)
}

pub open spec fn unwrap_or_zero_u32(o: Option<u32>) -> u32 {
    match o {
        Some(n) => n,
        None => 0,
    }
}

pub open spec fn unwrap_or_zero_u64(o: Option<u64>) -> u64 {
    match o {
        Some(n) => n,
        None => 0,
    }
}

/// The events one chunk stands for: the usage of a final chunk; otherwise its
/// tool calls in order and then its text, when not empty.
pub open spec fn chunk_events(chunk: ChatStreamChunk) -> Seq<StreamEventModel> {
    if chunk.done {
        seq![
            StreamEventModel::Done(
                UsageStats {
                    prompt_tokens: unwrap_or_zero_u32(chunk.prompt_eval_count),
                    completion_tokens: unwrap_or_zero_u32(chunk.eval_count),
                    total_duration_ns: unwrap_or_zero_u64(chunk.total_duration),
                    eval_duration_ns: unwrap_or_zero_u64(chunk.eval_duration),
                },
            ),
        ]
    } else {
        match chunk.message {
            Some(m) => {
                let calls = match m.tool_calls {
                    Some(c) => calls_model(c@).map_values(
                        |p: (Seq<char>, JsonModel)| StreamEventModel::ToolCall(p.0, p.1),
                    ),
                    None => Seq::empty(),
                };
                if m.content@.len() > 0 {
                    calls.push(StreamEventModel::TextDelta(m.content@))
                } else {
                    calls
                }
            },
            None => Seq::empty(),
        }
    }
}

/// A final chunk stands for exactly one event, its usage (a missing count
/// is zero). Any other chunk stands for one tool call event per tool call of
/// its message, in order, with that call's name and arguments, followed by
/// its text when the text is not empty, and nothing else; a chunk without a
/// message stands for no event.
pub proof fn law_chunk_events(chunk: ChatStreamChunk)
    ensures
        chunk.done ==> chunk_events(chunk) == seq![
            StreamEventModel::Done(
                UsageStats {
                    prompt_tokens: match chunk.prompt_eval_count {
                        Some(n) => n,
                        None => 0,
                    },
                    completion_tokens: match chunk.eval_count {
                        Some(n) => n,
                        None => 0,
                    },
                    total_duration_ns: match chunk.total_duration {
                        Some(n) => n,
                        None => 0,
                    },
                    eval_duration_ns: match chunk.eval_duration {
                        Some(n) => n,
                        None => 0,
                    },
                },
            ),
        ],
        !chunk.done && chunk.message is None ==> chunk_events(chunk).len() == 0,
        !chunk.done && chunk.message is Some ==> ({
            let m = chunk.message.unwrap();
            let n: int = match m.tool_calls {
                Some(c) => c@.len() as int,
                None => 0,
            };
            &&& chunk_events(chunk).len() == n + if m.content@.len() > 0 { 1int } else { 0int }
            &&& forall|i: int|
                0 <= i < n ==> #[trigger] chunk_events(chunk)[i] == StreamEventModel::ToolCall(
                    m.tool_calls.unwrap()@[i].function.name@,
                    m.tool_calls.unwrap()@[i].function.arguments@,
                )
            &&& m.content@.len() > 0 ==> chunk_events(chunk)[n] == StreamEventModel::TextDelta(m.content@)
        }),
{
}

/// The events of one streamed chunk.
pub fn process_chunk(chunk: &ChatStreamChunk) -> (events: Vec<StreamEvent>)
    ensures
        events_model(events@) == chunk_events(*chunk),
{
    let mut events: Vec<StreamEvent> = Vec::new();
    if chunk.done {
        let stats = UsageStats {
            prompt_tokens: match chunk.prompt_eval_count {
                Some(n) => n,
                None => 0,
            },
            completion_tokens: match chunk.eval_count {
                Some(n) => n,
                None => 0,
            },
            total_duration_ns: match chunk.total_duration {
                Some(n) => n,
                None => 0,
            },
            eval_duration_ns: match chunk.eval_duration {
                Some(n) => n,
                None => 0,
            },
        };
        events.push(StreamEvent::Done(stats));
        assert(events_model(events@) =~= chunk_events(*chunk));
        return events;
    }
    match &chunk.message {
        Some(message) => {
            let ghost cm = match &message.tool_calls {
                Some(c) => calls_model(c@).map_values(
                    |p: (Seq<char>, JsonModel)| StreamEventModel::ToolCall(p.0, p.1),
                ),
                None => Seq::<StreamEventModel>::empty(),
            };
            match &message.tool_calls {
                Some(calls) => {
                    let mut i: usize = 0;
                    while i < calls.len()
                        invariant
                            i <= calls@.len(),
                            cm == calls_model(calls@).map_values(
                                |p: (Seq<char>, JsonModel)| StreamEventModel::ToolCall(p.0, p.1),
                            ),
                            events_model(events@) =~= cm.take(i as int),
                        decreases calls.len() - i,
                    {
                        let tc = calls[i].duplicate();
                        let ghost before = events@;
                        events.push(
                            StreamEvent::ToolCall(
                                ToolCall { name: tc.function.name, arguments: tc.function.arguments },
                            ),
                        );
                        assert(events_model(events@) =~= events_model(before).push(events@[i as int]@));
                        assert(cm.take(i + 1) =~= cm.take(i as int).push(cm[i as int]));
                        i = i + 1;
                    }
                    assert(cm.take(calls@.len() as int) =~= cm);
                },
                None => {},
            }
            if !message.content.as_str().is_empty() {
                let ghost before = events@;
                events.push(StreamEvent::TextDelta(message.content.clone()));
                assert(events_model(events@) =~= events_model(before).push(StreamEventModel::TextDelta(message.content@)));
            }
        },
        None => {},
    }
    events
}

// ---------------------------------------------------------------------------
// Newline-delimited framing
// ---------------------------------------------------------------------------

/// The `'\n'`-terminated pieces of `t` from `start`, without their newlines.
pub open spec fn pieces_from(t: Seq<char>, start: int) -> Seq<Seq<char>>
    decreases t.len() - start,
{
    if start < 0 || start > t.len() {
        seq![]
    } else {
        let j = next_newline(t, start);
        proof {
            lemma_next_newline_bounds(t, start);
        }
        if j < t.len() {
            seq![t.subrange(start, j)] + pieces_from(t, j + 1)
        } else {
            seq![]
        }
    }
}

/// The text after the last `'\n'` of `t`, from `start`.
pub open spec fn rest_from(t: Seq<char>, start: int) -> Seq<char>
    decreases t.len() - start,
{
    if start < 0 || start > t.len() {
        seq![]
    } else {
        let j = next_newline(t, start);
        proof {
            lemma_next_newline_bounds(t, start);
        }
        if j < t.len() {
            rest_from(t, j + 1)
        } else {
            t.subrange(start, t.len() as int)
        }
    }
}

/// The trimmed pieces that are not empty, in order.
pub open spec fn nonblank_lines(ps: Seq<Seq<char>>) -> Seq<Seq<char>>
    decreases ps.len(),
{
    if ps.len() == 0 {
        seq![]
    } else if trim(ps[0]).len() > 0 {
        seq![trim(ps[0])] + nonblank_lines(ps.drop_first())
    } else {
        nonblank_lines(ps.drop_first())
    }
}

/// Pieces joined back, each followed by its newline.
pub open spec fn joined(ps: Seq<Seq<char>>) -> Seq<char>
    decreases ps.len(),
{
    if ps.len() == 0 {
        seq![]
    } else {
        ps[0] + seq!['\n'] + joined(ps.drop_first())
    }
}

/// No text is lost by the framing: the complete pieces with their newlines,
/// followed by the rest, give back the text.
pub proof fn lemma_framing_lossless(t: Seq<char>, start: int)
    requires
        0 <= start <= t.len(),
    ensures
        joined(pieces_from(t, start)) + rest_from(t, start) == t.subrange(start, t.len() as int),
    decreases t.len() - start,
{
    let j = next_newline(t, start);
    lemma_next_newline_bounds(t, start);
    if j < t.len() {
        lemma_framing_lossless(t, j + 1);
        let ps = pieces_from(t, start);
        assert(ps.drop_first() =~= pieces_from(t, j + 1));
        assert(t.subrange(start, t.len() as int) =~= t.subrange(start, j) + seq!['\n'] + t.subrange(
            j + 1,
            t.len() as int,
        ));
    } else {
        assert(joined(Seq::<Seq<char>>::empty()) =~= Seq::<char>::empty());
    }
}

proof fn lemma_next_newline_shift(s: Seq<char>, d: int, k: int)
    requires
        0 <= d <= k <= s.len(),
    ensures
        next_newline(s, k) == next_newline(s.subrange(d, s.len() as int), k - d) + d,
    decreases s.len() - k,
{
    let u = s.subrange(d, s.len() as int);
    if k < s.len() {
        assert(u[k - d] == s[k]);
        if s[k] != '\n' {
            lemma_next_newline_shift(s, d, k + 1);
        }
    }
}

proof fn lemma_pieces_shift(s: Seq<char>, d: int, k: int)
    requires
        0 <= d <= k <= s.len(),
    ensures
        pieces_from(s, k) == pieces_from(s.subrange(d, s.len() as int), k - d),
        rest_from(s, k) == rest_from(s.subrange(d, s.len() as int), k - d),
    decreases s.len() - k,
{
    let u = s.subrange(d, s.len() as int);
    lemma_next_newline_shift(s, d, k);
    lemma_next_newline_bounds(s, k);
    let j = next_newline(s, k);
    if j < s.len() {
        lemma_pieces_shift(s, d, j + 1);
        assert(s.subrange(k, j) =~= u.subrange(k - d, j - d));
    } else {
        assert(s.subrange(k, s.len() as int) =~= u.subrange(k - d, u.len() as int));
    }
}

/// Framing the text `t + b` from `start` is framing `t` from `start`, then
/// framing what `t` left over followed by `b`.
proof fn lemma_pieces_append(t: Seq<char>, b: Seq<char>, start: int)
    requires
        0 <= start <= t.len(),
    ensures
        pieces_from(t + b, start) == pieces_from(t, start) + pieces_from(rest_from(t, start) + b, 0),
        rest_from(t + b, start) == rest_from(rest_from(t, start) + b, 0),
    decreases t.len() - start,
{
    let tb = t + b;
    lemma_next_newline_bounds(t, start);
    let j = next_newline(t, start);
    if j < t.len() {
        assert(tb[j] == t[j]);
        assert forall|m: int| start <= m < j implies tb[m] != '\n' by {
            assert(tb[m] == t[m]);
        }
        lemma_next_newline_found(tb, start, j);
        lemma_pieces_append(t, b, j + 1);
        assert(tb.subrange(start, j) =~= t.subrange(start, j));
        assert(pieces_from(tb, start) == seq![t.subrange(start, j)] + pieces_from(tb, j + 1));
        assert(pieces_from(t, start) == seq![t.subrange(start, j)] + pieces_from(t, j + 1));
        assert(seq![t.subrange(start, j)] + (pieces_from(t, j + 1) + pieces_from(rest_from(t, j + 1) + b, 0))
            =~= (seq![t.subrange(start, j)] + pieces_from(t, j + 1)) + pieces_from(rest_from(t, j + 1) + b, 0));
    } else {
        lemma_pieces_shift(tb, start, start);
        assert(tb.subrange(start, tb.len() as int) =~= t.subrange(start, t.len() as int) + b);
        assert(pieces_from(t, start) =~= Seq::<Seq<char>>::empty());
        assert(Seq::<Seq<char>>::empty() + pieces_from(rest_from(t, start) + b, 0) =~= pieces_from(
            rest_from(t, start) + b,
            0,
        ));
    }
}

proof fn lemma_nonblank_concat(a: Seq<Seq<char>>, b: Seq<Seq<char>>)
    ensures
        nonblank_lines(a + b) == nonblank_lines(a) + nonblank_lines(b),
    decreases a.len(),
{
    if a.len() == 0 {
        assert(a + b =~= b);
        assert(Seq::<Seq<char>>::empty() + nonblank_lines(b) =~= nonblank_lines(b));
    } else {
        lemma_nonblank_concat(a.drop_first(), b);
        assert((a + b).drop_first() =~= a.drop_first() + b);
        assert((a + b)[0] == a[0]);
        if trim(a[0]).len() > 0 {
            assert(seq![trim(a[0])] + (nonblank_lines(a.drop_first()) + nonblank_lines(b)) =~= (seq![
                trim(a[0]),
            ] + nonblank_lines(a.drop_first())) + nonblank_lines(b));
        }
    }
}

/// Streamed text may arrive cut anywhere: pushing `a` and then `b` into a
/// line buffer holding `p` hands out the same lines, and leaves the same
/// pending text, as pushing `a + b` at once.
pub proof fn lemma_push_split(p: Seq<char>, a: Seq<char>, b: Seq<char>)
    ensures
        nonblank_lines(pieces_from(p + a, 0)) + nonblank_lines(pieces_from(rest_from(p + a, 0) + b, 0))
            == nonblank_lines(pieces_from(p + a + b, 0)),
        rest_from(rest_from(p + a, 0) + b, 0) == rest_from(p + a + b, 0),
{
    lemma_pieces_append(p + a, b, 0);
    lemma_nonblank_concat(pieces_from(p + a, 0), pieces_from(rest_from(p + a, 0) + b, 0));
}

/// Buffer of streamed text that hands out complete lines.
pub struct LineBuffer {
    buffer: String,
}

impl LineBuffer {
    /// The text received but not yet handed out (it holds no newline).
    pub closed spec fn pending(&self) -> Seq<char> {
        self.buffer@
    }

    pub fn new() -> (r: Self)
        ensures
            r.pending() == Seq::<char>::empty(),
    {
        LineBuffer { buffer: String::new() }
    }

    /// Adds received text and returns the trimmed, non-empty complete lines.
    pub fn push(&mut self, text: &str) -> (lines: Vec<String>)
        ensures
            lines@.map_values(|l: String| l@) == nonblank_lines(pieces_from(old(self).pending() + text@, 0)),
            final(self).pending() == rest_from(old(self).pending() + text@, 0),
    {
        append_str(&mut self.buffer, text);
        let v = chars_of(self.buffer.as_str());
        let ghost t = v@;
        let mut out: Vec<String> = Vec::new();
        let mut start: usize = 0;
        let mut i: usize = 0;
        while i < v.len()
            invariant
                t == v@,
                start <= i <= v.len(),
                forall|m: int| start <= m < i ==> t[m] != '\n',
                nonblank_lines(pieces_from(t, 0)) == out@.map_values(|l: String| l@) + nonblank_lines(
                    pieces_from(t, start as int),
                ),
                rest_from(t, 0) == rest_from(t, start as int),
            decreases v.len() - i,
        {
            if v[i] == '\n' {
                proof {
                    lemma_next_newline_found(t, start as int, i as int);
                    let ps = pieces_from(t, start as int);
                    assert(ps == seq![t.subrange(start as int, i as int)] + pieces_from(t, i + 1));
                    assert(ps[0] == t.subrange(start as int, i as int));
                    assert(ps.drop_first() =~= pieces_from(t, i + 1));
                }
                let line = trim_range(&v, start, i);
                if !line.as_str().is_empty() {
                    let ghost before = out@;
                    out.push(line);
                    assert(out@.map_values(|l: String| l@) =~= before.map_values(|l: String| l@).push(
                        trim(t.subrange(start as int, i as int)),
                    ));
                    assert(before.map_values(|l: String| l@).push(trim(t.subrange(start as int, i as int)))
                        + nonblank_lines(pieces_from(t, i + 1)) =~= before.map_values(|l: String| l@) + (
                    seq![trim(t.subrange(start as int, i as int))] + nonblank_lines(pieces_from(t, i + 1))));
                }
                start = i + 1;
            }
            i = i + 1;
        }
        proof {
            lemma_next_newline_none(t, start as int);
            assert(pieces_from(t, start as int) =~= Seq::<Seq<char>>::empty());
            assert(nonblank_lines(Seq::<Seq<char>>::empty()) =~= Seq::<Seq<char>>::empty());
            assert(out@.map_values(|l: String| l@) + Seq::<Seq<char>>::empty() =~= out@.map_values(|l: String| l@));
        }
        self.buffer = string_from_range(&v, start, v.len());
        out
    }

    /// The trimmed pending text, when it is not empty.
    pub fn finish(&self) -> (r: Option<String>)
        ensures
            match r {
                Some(s) => s@ == trim(self.pending()) && s@.len() > 0,
                None => trim(self.pending()).len() == 0,
            },
    {
        let s = crate::text::trim_str(self.buffer.as_str());
        if s.as_str().is_empty() {
            None
        } else {
            Some(s)
        }
    }
}

} // verus!
