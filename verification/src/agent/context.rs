//! Token-aware management of the conversation history.

use vstd::prelude::*;

use crate::llm::types::{messages_model, Message, MessageModel, Role};
use crate::text::{
    append_str, byte_len, decimal, lemma_byte_len_concat, lines, push_char, push_decimal, str_byte_len,
    split_lines,
};

verus! {

/// Rough token estimate of a text: a quarter of its UTF-8 byte length, rounded up.
pub open spec fn token_estimate(s: Seq<char>) -> nat {
    (byte_len(s) + 3) / 4
}

/// Estimated tokens of one message: its text plus four for role and formatting.
pub open spec fn message_cost(m: MessageModel) -> nat {
    token_estimate(m.content) + 4
}

/// Estimated tokens of a sequence of messages.
pub open spec fn messages_cost(ms: Seq<MessageModel>) -> nat
    decreases ms.len(),
{
    if ms.len() == 0 {
        0
    } else {
        message_cost(ms[0]) + messages_cost(ms.drop_first())
    }
}

pub proof fn lemma_messages_cost_concat(a: Seq<MessageModel>, b: Seq<MessageModel>)
    ensures
        messages_cost(a + b) == messages_cost(a) + messages_cost(b),
    decreases a.len(),
{
    if a.len() == 0 {
        assert(a + b =~= b);
    } else {
        assert((a + b).drop_first() =~= a.drop_first() + b);
        lemma_messages_cost_concat(a.drop_first(), b);
    }
}

pub proof fn lemma_messages_cost_push(a: Seq<MessageModel>, m: MessageModel)
    ensures
        messages_cost(a.push(m)) == messages_cost(a) + message_cost(m),
{
    assert(a.push(m) =~= a + seq![m]);
    lemma_messages_cost_concat(a, seq![m]);
    assert(seq![m].drop_first() =~= Seq::<MessageModel>::empty());
    assert(messages_cost(Seq::<MessageModel>::empty()) == 0);
    assert(messages_cost(seq![m]) == message_cost(m) + messages_cost(seq![m].drop_first()));
}

/// The estimate of a list of messages adds up over its parts: nothing for no
/// message, the content's estimate and four for one message, and for two
/// lists one after the other the sum of their estimates. Role, tool calls and
/// tool name do not count.
pub proof fn law_messages_estimate_additive(a: Seq<Message>, b: Seq<Message>, m: Message)
    ensures
        messages_cost(messages_model(Seq::<Message>::empty())) == 0,
        messages_cost(messages_model(seq![m])) == token_estimate(m.content@) + 4,
        messages_cost(messages_model(a + b)) == messages_cost(messages_model(a)) + messages_cost(messages_model(b)),
{
    assert(messages_model(Seq::<Message>::empty()) =~= Seq::<MessageModel>::empty());
    assert(messages_model(seq![m]) =~= seq![m@]);
    assert(seq![m@].drop_first() =~= Seq::<MessageModel>::empty());
    assert(messages_cost(seq![m@]) == message_cost(m@) + messages_cost(seq![m@].drop_first()));
    assert(messages_model(a + b) =~= messages_model(a) + messages_model(b));
    lemma_messages_cost_concat(messages_model(a), messages_model(b));
}

/// Per-message bounds read from the model of a message vector.
pub proof fn lemma_model_bounds(v: Seq<Message>)
    requires
        forall|i: int| 0 <= i < v.len() ==> byte_len(#[trigger] messages_model(v)[i].content) + 3 <= u32::MAX,
    ensures
        forall|i: int| 0 <= i < v.len() ==> byte_len(#[trigger] v[i].content@) + 3 <= u32::MAX,
{
    assert forall|i: int| 0 <= i < v.len() implies byte_len(#[trigger] v[i].content@) + 3 <= u32::MAX by {
        assert(messages_model(v)[i].content == v[i].content@);
    }
}

/// The note that replaces removed messages.
pub open spec fn removed_note(n: nat) -> Seq<char> {
    "["@ + decimal(n)
        + " earlier messages were removed to fit the context window. The conversation continues below.]"@
}

/// `k` is where the kept recent messages start when the history `ms` is cut
/// to `target` tokens: the first message and `ms[k..]` fit, and with one more
/// recent message they would not.
pub open spec fn is_cut_point(ms: Seq<MessageModel>, target: nat, k: int) -> bool {
    &&& 1 <= k <= ms.len()
    &&& (k == ms.len() || message_cost(ms[0]) + messages_cost(ms.skip(k)) <= target)
    &&& (k == 1 || message_cost(ms[0]) + messages_cost(ms.skip(k - 1)) > target)
}

pub proof fn lemma_messages_cost_skip_step(ms: Seq<MessageModel>, i: int)
    requires
        0 <= i < ms.len(),
    ensures
        messages_cost(ms.skip(i)) == message_cost(ms[i]) + messages_cost(ms.skip(i + 1)),
{
    assert(ms.skip(i).drop_first() =~= ms.skip(i + 1));
    assert(ms.skip(i)[0] == ms[i]);
}

proof fn lemma_suffix_cost_monotone(ms: Seq<MessageModel>, i: int, j: int)
    requires
        0 <= i <= j <= ms.len(),
    ensures
        messages_cost(ms.skip(i)) >= messages_cost(ms.skip(j)) + (j - i) * 4,
    decreases j - i,
{
    if i < j {
        lemma_messages_cost_skip_step(ms, i);
        lemma_suffix_cost_monotone(ms, i + 1, j);
    }
}

/// The cut point of a history is unique.
pub proof fn lemma_cut_point_unique(ms: Seq<MessageModel>, target: nat, k1: int, k2: int)
    requires
        is_cut_point(ms, target, k1),
        is_cut_point(ms, target, k2),
    ensures
        k1 == k2,
{
    if k1 < k2 {
        lemma_suffix_cost_monotone(ms, k2 - 1, ms.len() as int);
        lemma_suffix_cost_monotone(ms, k1, k2 - 1);
    } else if k2 < k1 {
        lemma_suffix_cost_monotone(ms, k1 - 1, ms.len() as int);
        lemma_suffix_cost_monotone(ms, k2, k1 - 1);
    }
}

/// The history after cutting at `k`: the first message, a note on how many
/// were removed, then `ms[k..]`.
pub open spec fn cut_history(ms: Seq<MessageModel>, k: int) -> Seq<MessageModel> {
    seq![
        ms[0],
        MessageModel {
            role: Role::System,
            content: removed_note((k - 1) as nat),
            tool_calls: None,
            tool_name: None,
        },
    ] + ms.skip(k)
}

/// Model of the text of a tool result cut down to `max_tokens`.
pub open spec fn with_newlines(ls: Seq<Seq<char>>) -> Seq<char>
    decreases ls.len(),
{
    if ls.len() == 0 {
        Seq::empty()
    } else {
        ls[0] + seq!['\n'] + with_newlines(ls.drop_first())
    }
}

/// How many leading lines fit in `budget` bytes, each counted with its newline.
pub open spec fn prefix_fit(ls: Seq<Seq<char>>, budget: int) -> nat
    decreases ls.len(),
{
    if ls.len() == 0 || byte_len(ls[0]) + 1 > budget {
        0
    } else {
        1 + prefix_fit(ls.drop_first(), budget - byte_len(ls[0]) - 1)
    }
}

/// How many trailing lines fit in `budget` bytes, each counted with its newline.
pub open spec fn suffix_fit(ls: Seq<Seq<char>>, budget: int) -> nat
    decreases ls.len(),
{
    if ls.len() == 0 || byte_len(ls.last()) + 1 > budget {
        0
    } else {
        1 + suffix_fit(ls.drop_last(), budget - byte_len(ls.last()) - 1)
    }
}

/// Bytes taken by lines, each with its newline.
pub open spec fn lines_cost(ls: Seq<Seq<char>>) -> nat
    decreases ls.len(),
{
    if ls.len() == 0 {
        0
    } else {
        byte_len(ls[0]) + 1 + lines_cost(ls.drop_first())
    }
}

proof fn lemma_with_newlines_push(a: Seq<Seq<char>>, x: Seq<char>)
    ensures
        with_newlines(a.push(x)) == with_newlines(a) + x + seq!['\n'],
        lines_cost(a.push(x)) == lines_cost(a) + byte_len(x) + 1,
    decreases a.len(),
{
    if a.len() == 0 {
        assert(a.push(x).drop_first() =~= Seq::<Seq<char>>::empty());
        assert(lines_cost(Seq::<Seq<char>>::empty()) == 0);
        assert(lines_cost(a.push(x)) == byte_len(x) + 1 + lines_cost(a.push(x).drop_first()));
        assert(with_newlines(Seq::<Seq<char>>::empty()) =~= Seq::<char>::empty());
        assert(with_newlines(a.push(x)) =~= x + seq!['\n'] + Seq::<char>::empty());
        assert(with_newlines(a) + x + seq!['\n'] =~= x + seq!['\n']);
    } else {
        assert(a.push(x).drop_first() =~= a.drop_first().push(x));
        lemma_with_newlines_push(a.drop_first(), x);
        assert(with_newlines(a.push(x)) =~= a[0] + seq!['\n'] + (with_newlines(a.drop_first()) + x + seq!['\n']));
    }
}

proof fn lemma_prefix_fit_step(ls: Seq<Seq<char>>, h: int, b: int)
    requires
        0 <= h < ls.len(),
        byte_len(ls[h]) + 1 <= b,
    ensures
        prefix_fit(ls.skip(h), b) == 1 + prefix_fit(ls.skip(h + 1), b - byte_len(ls[h]) - 1),
{
    assert(ls.skip(h).drop_first() =~= ls.skip(h + 1));
    assert(ls.skip(h)[0] == ls[h]);
}

proof fn lemma_suffix_fit_step(ls: Seq<Seq<char>>, e: int, b: int)
    requires
        0 < e <= ls.len(),
        byte_len(ls[e - 1]) + 1 <= b,
    ensures
        suffix_fit(ls.take(e), b) == 1 + suffix_fit(ls.take(e - 1), b - byte_len(ls[e - 1]) - 1),
{
    assert(ls.take(e).drop_last() =~= ls.take(e - 1));
    assert(ls.take(e).last() == ls[e - 1]);
}

proof fn lemma_with_newlines_prepend(ls: Seq<Seq<char>>, e: int)
    requires
        0 < e <= ls.len(),
    ensures
        with_newlines(ls.skip(e - 1)) == ls[e - 1] + seq!['\n'] + with_newlines(ls.skip(e)),
        lines_cost(ls.skip(e - 1)) == byte_len(ls[e - 1]) + 1 + lines_cost(ls.skip(e)),
{
    assert(ls.skip(e - 1).drop_first() =~= ls.skip(e));
    assert(ls.skip(e - 1)[0] == ls[e - 1]);
}

/// What `truncate_tool_result` returns for a text longer than the limit.
pub open spec fn truncated_text(s: Seq<char>, max_chars: nat) -> Seq<char> {
    let ls = lines(s);
    let half = max_chars / 2;
    let h = prefix_fit(ls, half as int);
    let t = suffix_fit(ls, half as int);
    with_newlines(ls.take(h as int)) + "... (output truncated, "@ + decimal(byte_len(s))
        + " total chars) ...\n"@ + with_newlines(ls.skip(ls.len() - t))
}

/// Manages the conversation history and provides token-aware truncation.
pub struct ContextManager {
    max_history_tokens: u32,
    system_prompt_tokens: u32,
}

impl ContextManager {
    /// Tokens available to the history (model context minus reply reserve).
    pub closed spec fn max_history(&self) -> u32 {
        self.max_history_tokens
    }

    /// Estimated tokens of the system prompt.
    pub closed spec fn system_prompt(&self) -> u32 {
        self.system_prompt_tokens
    }

    /// Estimated tokens used by the system prompt and the given messages.
    pub open spec fn used(&self, ms: Seq<MessageModel>) -> nat {
        self.system_prompt() as nat + messages_cost(ms)
    }

    pub fn new(max_history_tokens: u32, system_prompt_tokens: u32) -> (r: Self)
        ensures
            r.max_history() == max_history_tokens,
            r.system_prompt() == system_prompt_tokens,
    {
        ContextManager { max_history_tokens, system_prompt_tokens }
    }

    /// Tokens available to the history.
    pub fn max_history_tokens(&self) -> (n: u32)
        ensures
            n == self.max_history(),
    {
        self.max_history_tokens
    }

    /// Estimate the number of tokens in a string (about four bytes per token).
    pub fn estimate_tokens(text: &str) -> (n: u32)
        requires
            byte_len(text@) + 3 <= u32::MAX,
        ensures
            n == token_estimate(text@),
    {
        let len = str_byte_len(text);
        (len as u32 + 3) / 4
    }

    /// Estimate total tokens used by a list of messages.
    pub fn estimate_messages_tokens(messages: &[Message]) -> (n: u32)
        requires
            messages_cost(messages_model(messages@)) <= u32::MAX,
            forall|i: int| 0 <= i < messages@.len() ==> byte_len(#[trigger] messages@[i].content@) + 3 <= u32::MAX,
        ensures
            n == messages_cost(messages_model(messages@)),
    {
        let ghost ms = messages_model(messages@);
        let mut total: u32 = 0;
        let mut i: usize = 0;
        while i < messages.len()
            invariant
                i <= messages@.len(),
                ms == messages_model(messages@),
                messages_cost(ms) <= u32::MAX,
                forall|k: int| 0 <= k < messages@.len() ==> byte_len(#[trigger] messages@[k].content@) + 3 <= u32::MAX,
                total == messages_cost(ms.take(i as int)),
            decreases messages.len() - i,
        {
            proof {
                assert(ms.take(i + 1) =~= ms.take(i as int).push(ms[i as int]));
                lemma_messages_cost_push(ms.take(i as int), ms[i as int]);
                assert(ms =~= ms.take(i + 1) + ms.skip(i + 1));
                lemma_messages_cost_concat(ms.take(i + 1), ms.skip(i + 1));
            }
            let t = Self::estimate_tokens(messages[i].content.as_str());
            total = total + t + 4;
            i = i + 1;
        }
        assert(ms.take(i as int) =~= ms);
        total
    }

    /// Estimated tokens used by the system prompt and the messages.
    pub fn used_tokens(&self, current_messages: &[Message]) -> (n: u32)
        requires
            self.used(messages_model(current_messages@)) <= u32::MAX,
            forall|i: int| 0 <= i < current_messages@.len() ==> byte_len(#[trigger] current_messages@[i].content@) + 3 <= u32::MAX,
        ensures
            n == self.used(messages_model(current_messages@)),
    {
        self.system_prompt_tokens + Self::estimate_messages_tokens(current_messages)
    }

    /// Available token budget for new messages.
    pub fn available_tokens(&self, current_messages: &[Message]) -> (n: u32)
        requires
            self.used(messages_model(current_messages@)) <= u32::MAX,
            forall|i: int| 0 <= i < current_messages@.len() ==> byte_len(#[trigger] current_messages@[i].content@) + 3 <= u32::MAX,
        ensures
            n == if self.used(messages_model(current_messages@)) <= self.max_history() {
                self.max_history() - self.used(messages_model(current_messages@))
            } else {
                0
            },
    {
        let used = self.used_tokens(current_messages);
        self.max_history_tokens.saturating_sub(used)
    }

    /// Whether more than 80% of the history budget is used. With no budget at
    /// all, any use counts as more than 80%.
    pub fn needs_compaction(&self, current_messages: &[Message]) -> (b: bool)
        requires
            self.used(messages_model(current_messages@)) <= u32::MAX,
            forall|i: int| 0 <= i < current_messages@.len() ==> byte_len(#[trigger] current_messages@[i].content@) + 3 <= u32::MAX,
        ensures
            b == (5 * self.used(messages_model(current_messages@)) > 4 * self.max_history()),
    {
        let used = self.used_tokens(current_messages) as u64;
        5 * used > 4 * (self.max_history_tokens as u64)
    }

    /// Token counts of the system prompt and `ms`, and of each message, fit
    /// the `u32` arithmetic of the estimates.
    pub open spec fn counts_fit(&self, ms: Seq<MessageModel>) -> bool {
        &&& self.used(ms) <= u32::MAX
        &&& forall|i: int| 0 <= i < ms.len() ==> byte_len(#[trigger] ms[i].content) + 3 <= u32::MAX
    }

    /// Whether the token counts of the system prompt and `messages` fit the
    /// `u32` arithmetic of the estimates.
    pub fn counts_fit_all(&self, messages: &[Message]) -> (b: bool)
        ensures
            b == self.counts_fit(messages_model(messages@)),
    {
        let ghost ms = messages_model(messages@);
        let limit: u64 = 0xFFFF_FFFF;
        let mut total: u64 = self.system_prompt_tokens as u64;
        let mut i: usize = 0;
        while i < messages.len()
            invariant
                i <= messages@.len(),
                ms == messages_model(messages@),
                total == self.system_prompt() + messages_cost(ms.take(i as int)),
                limit == 0xFFFF_FFFFu64,
                total <= limit,
                forall|k: int| 0 <= k < i ==> byte_len(#[trigger] ms[k].content) + 3 <= u32::MAX,
            decreases messages.len() - i,
        {
            let len = str_byte_len(messages[i].content.as_str());
            assert(ms[i as int] == messages@[i as int]@);
            if len > 0xFFFF_FFFF - 3 {
                assert(byte_len(ms[i as int].content) + 3 > u32::MAX);
                return false;
            }
            proof {
                assert(ms.take(i + 1) =~= ms.take(i as int).push(ms[i as int]));
                lemma_messages_cost_push(ms.take(i as int), ms[i as int]);
                assert(ms =~= ms.take(i + 1) + ms.skip(i + 1));
                lemma_messages_cost_concat(ms.take(i + 1), ms.skip(i + 1));
            }
            total = total + ((len as u64 + 3) / 4 + 4);
            if total > limit {
                assert(self.used(ms) > u32::MAX);
                return false;
            }
            i = i + 1;
        }
        assert(ms.take(messages@.len() as int) =~= ms);
        true
    }

    /// Whether the token counts of the system prompt, `messages` and one more
    /// message with text `extra` fit the `u32` arithmetic of the estimates.
    pub fn counts_fit_with(&self, messages: &[Message], extra: &str) -> (b: bool)
        ensures
            b == self.counts_fit(messages_model(messages@).push(MessageModel {
                role: Role::User,
                content: extra@,
                tool_calls: None,
                tool_name: None,
            })),
    {
        let ghost em = MessageModel { role: Role::User, content: extra@, tool_calls: None, tool_name: None };
        let ghost ms = messages_model(messages@).push(em);
        let limit: u64 = 0xFFFF_FFFF;
        let mut total: u64 = self.system_prompt_tokens as u64;
        let mut i: usize = 0;
        while i < messages.len()
            invariant
                i <= messages@.len(),
                ms == messages_model(messages@).push(em),
                em == (MessageModel { role: Role::User, content: extra@, tool_calls: None, tool_name: None }),
                total == self.system_prompt() + messages_cost(ms.take(i as int)),
                limit == 0xFFFF_FFFFu64,
                total <= limit,
                forall|k: int| 0 <= k < i ==> byte_len(#[trigger] ms[k].content) + 3 <= u32::MAX,
            decreases messages.len() - i,
        {
            let len = str_byte_len(messages[i].content.as_str());
            assert(ms[i as int] == messages@[i as int]@);
            if len > 0xFFFF_FFFF - 3 {
                assert(byte_len(ms[i as int].content) + 3 > u32::MAX);
                return false;
            }
            proof {
                assert(ms.take(i + 1) =~= ms.take(i as int).push(ms[i as int]));
                lemma_messages_cost_push(ms.take(i as int), ms[i as int]);
                assert(ms =~= ms.take(i + 1) + ms.skip(i + 1));
                lemma_messages_cost_concat(ms.take(i + 1), ms.skip(i + 1));
            }
            total = total + ((len as u64 + 3) / 4 + 4);
            if total > limit {
                assert(self.used(ms) > u32::MAX);
                return false;
            }
            i = i + 1;
        }
        let len = str_byte_len(extra);
        if len > 0xFFFF_FFFF - 3 {
            assert(ms[messages@.len() as int].content == extra@);
            assert(byte_len(ms[messages@.len() as int].content) + 3 > u32::MAX);
            return false;
        }
        proof {
            let n = messages@.len() as int;
            assert(ms.take(n + 1) =~= ms.take(n).push(ms[n]));
            lemma_messages_cost_push(ms.take(n), ms[n]);
            assert(ms.take(n + 1) =~= ms);
        }
        total = total + ((len as u64 + 3) / 4 + 4);
        total <= limit
    }

    /// Whether `r` is the history `ms` truncated to the budget: left as it is
    /// when it has at most two messages or fits, else cut at its cut point.
    pub open spec fn truncation_of(&self, ms: Seq<MessageModel>, r: Seq<MessageModel>) -> bool {
        if ms.len() <= 2 || messages_cost(ms) <= self.target() {
            r == ms
        } else {
            exists|k: int| 1 < k && #[trigger] is_cut_point(ms, self.target(), k) && r == cut_history(ms, k)
        }
    }

    /// Tokens the history may use: the budget minus the system prompt.
    pub open spec fn target(&self) -> nat {
        if self.system_prompt() <= self.max_history() {
            (self.max_history() - self.system_prompt()) as nat
        } else {
            0
        }
    }

    /// Truncate the history to fit the budget: keep the first message and the
    /// longest run of most recent messages that fits, and put a note on the
    /// number of removed messages between them. Histories of at most two
    /// messages, and histories that fit, are left as they are.
    pub fn truncate_history(&self, messages: &mut Vec<Message>)
        requires
            messages_cost(messages_model(old(messages)@)) <= u32::MAX,
            forall|i: int| 0 <= i < old(messages)@.len() ==> byte_len(#[trigger] old(messages)@[i].content@) + 3 <= u32::MAX,
        ensures
            self.truncation_of(messages_model(old(messages)@), messages_model(final(messages)@)),
    {
        let ghost ms = messages_model(messages@);
        if messages.len() <= 2 {
            return;
        }
        let target = self.max_history_tokens.saturating_sub(self.system_prompt_tokens);
        assert(target == self.target());
        if Self::estimate_messages_tokens(messages.as_slice()) <= target {
            return;
        }
        let n = messages.len();
        let first = messages[0].duplicate();
        proof {
            assert(ms[0] == messages@[0]@);
            assert(ms =~= ms.take(1) + ms.skip(1));
            lemma_messages_cost_concat(ms.take(1), ms.skip(1));
            assert(ms.take(1).drop_first() =~= Seq::<MessageModel>::empty());
            assert(ms.take(1)[0] == ms[0]);
            assert(messages_cost(ms.skip(n as int)) == 0) by {
                assert(ms.skip(n as int) =~= Seq::<MessageModel>::empty());
            }
        }
        let mut recent: u32 = Self::estimate_tokens(first.content.as_str()) + 4;
        let mut keep_from: usize = n;
        let mut i: usize = n - 1;
        while i >= 1
            invariant
                3 <= n == messages@.len(),
                ms == messages_model(messages@),
                messages_cost(ms) <= u32::MAX,
                messages_cost(ms) > target,
                target == self.target(),
                forall|k: int| 0 <= k < messages@.len() ==> byte_len(#[trigger] messages@[k].content@) + 3 <= u32::MAX,
                messages_cost(ms) == message_cost(ms[0]) + messages_cost(ms.skip(1)),
                keep_from == i + 1,
                1 <= keep_from <= n,
                recent == message_cost(ms[0]) + messages_cost(ms.skip(keep_from as int)),
                keep_from == n || recent <= target,
            ensures
                keep_from == 1 || message_cost(ms[0]) + messages_cost(ms.skip(keep_from - 1)) > target,
            decreases i,
        {
            proof {
                lemma_messages_cost_skip_step(ms, i as int);
                lemma_suffix_cost_monotone(ms, 1, i as int);
                assert(ms[i as int] == messages@[i as int]@);
            }
            let msg_tokens = Self::estimate_tokens(messages[i].content.as_str()) + 4;
            if recent + msg_tokens > target {
                break;
            }
            recent = recent + msg_tokens;
            keep_from = i;
            i = i - 1;
        }
        proof {
            if keep_from == 1 {
                assert(false);
            }
            assert(is_cut_point(ms, self.target(), keep_from as int));
        }
        let removed_count = keep_from - 1;
        let mut note = String::new();
        append_str(&mut note, "[");
        push_decimal(&mut note, removed_count as u64);
        append_str(
            &mut note,
            " earlier messages were removed to fit the context window. The conversation continues below.]",
        );
        assert(note@ =~= removed_note(removed_count as nat));
        let mut truncated: Vec<Message> = Vec::new();
        truncated.push(first);
        truncated.push(Message { role: Role::System, content: note, tool_calls: None, tool_name: None });
        let mut j: usize = keep_from;
        while j < n
            invariant
                keep_from <= j <= n == messages@.len(),
                ms == messages_model(messages@),
                2 <= keep_from,
                truncated@.len() == 2 + (j - keep_from),
                messages_model(truncated@) =~= cut_history(ms, keep_from as int).take(2 + (j - keep_from)),
            decreases n - j,
        {
            let m = messages[j].duplicate();
            let ghost before = truncated@;
            truncated.push(m);
            proof {
                assert(messages_model(truncated@) =~= messages_model(before).push(ms[j as int]));
                assert(cut_history(ms, keep_from as int)[2 + (j - keep_from)] == ms[j as int]);
                assert(cut_history(ms, keep_from as int).take(2 + (j + 1 - keep_from)) =~= cut_history(ms, keep_from as int).take(2 + (j - keep_from)).push(ms[j as int]));
            }
            j = j + 1;
        }
        assert(cut_history(ms, keep_from as int).take(2 + (n - keep_from)) =~= cut_history(ms, keep_from as int));
        *messages = truncated;
    }

    /// Cut a tool result down to about `max_tokens` tokens: a text within
    /// `4 * max_tokens` bytes is returned as it is; a longer one becomes its
    /// leading lines, a note with its byte length, and its trailing lines, each
    /// part within half the limit.
    pub fn truncate_tool_result(result: &str, max_tokens: u32) -> (r: String)
        requires
            max_tokens * 4 <= u32::MAX,
        ensures
            byte_len(result@) <= max_tokens * 4 ==> r@ == result@,
            byte_len(result@) > max_tokens * 4 ==> r@ == truncated_text(result@, (max_tokens * 4) as nat),
    {
        let max_chars = (max_tokens * 4) as usize;
        let total = str_byte_len(result);
        if total <= max_chars {
            return result.to_owned();
        }
        let half = max_chars / 2;
        let ls = split_lines(result);
        let ghost lm = lines(result@);
        let ghost hb = half as int;
        proof {
            crate::text::lemma_lines_from_byte_len(result@, 0);
            assert(lm.skip(0) =~= lm);
            assert(lm.take(0) =~= Seq::<Seq<char>>::empty());
        }
        let mut head = String::new();
        let mut head_len: usize = 0;
        let mut h: usize = 0;
        while h < ls.len()
            invariant
                lm == lines(result@),
                hb == half as int,
                total == byte_len(result@),
                forall|i: int| 0 <= i < lm.len() ==> byte_len(#[trigger] lm[i]) <= byte_len(result@),
                ls@.len() == lm.len(),
                forall|i: int| 0 <= i < ls@.len() ==> #[trigger] ls@[i]@ == lm[i],
                h <= ls@.len(),
                head_len <= half,
                head@ == with_newlines(lm.take(h as int)),
                head_len == lines_cost(lm.take(h as int)),
                prefix_fit(lm, hb) == h + prefix_fit(lm.skip(h as int), hb - head_len),
            ensures
                h == prefix_fit(lm, hb),
                head@ == with_newlines(lm.take(h as int)),
            decreases ls.len() - h,
        {
            assert(byte_len(lm[h as int]) <= byte_len(result@));
            let l = str_byte_len(ls[h].as_str());
            assert(l as int == byte_len(lm[h as int]));
            if l >= half - head_len {
                assert(lm.skip(h as int)[0] == lm[h as int]);
                assert(prefix_fit(lm.skip(h as int), hb - head_len) == 0);
                break;
            }
            proof {
                lemma_prefix_fit_step(lm, h as int, hb - head_len);
                lemma_with_newlines_push(lm.take(h as int), lm[h as int]);
                assert(lm.take(h + 1) =~= lm.take(h as int).push(lm[h as int]));
            }
            append_str(&mut head, ls[h].as_str());
            push_char(&mut head, '\n');
            head_len = head_len + l + 1;
            h = h + 1;
        }
        proof {
            if h == ls.len() {
                assert(lm.skip(h as int) =~= Seq::<Seq<char>>::empty());
            }
        }
        let n = ls.len();
        let mut tail = String::new();
        let mut tail_len: usize = 0;
        let mut t: usize = 0;
        proof {
            assert(lm.skip(n as int) =~= Seq::<Seq<char>>::empty());
            assert(lm.take(n as int) =~= lm);
        }
        while t < n
            invariant
                lm == lines(result@),
                hb == half as int,
                total == byte_len(result@),
                forall|i: int| 0 <= i < lm.len() ==> byte_len(#[trigger] lm[i]) <= byte_len(result@),
                n == ls@.len() == lm.len(),
                forall|i: int| 0 <= i < ls@.len() ==> #[trigger] ls@[i]@ == lm[i],
                t <= n,
                tail_len <= half,
                tail@ == with_newlines(lm.skip(n - t)),
                tail_len == lines_cost(lm.skip(n - t)),
                suffix_fit(lm, hb) == t + suffix_fit(lm.take(n - t), hb - tail_len),
            ensures
                t == suffix_fit(lm, hb),
                tail@ == with_newlines(lm.skip(n - t)),
            decreases n - t,
        {
            let idx = n - 1 - t;
            assert(byte_len(lm[idx as int]) <= byte_len(result@));
            let l = str_byte_len(ls[idx].as_str());
            assert(l as int == byte_len(lm[idx as int]));
            if l >= half - tail_len {
                assert(lm.take(n - t).last() == lm[idx as int]);
                assert(suffix_fit(lm.take(n - t), hb - tail_len) == 0);
                break;
            }
            proof {
                lemma_suffix_fit_step(lm, n - t, hb - tail_len);
                lemma_with_newlines_prepend(lm, n - t);
                assert(n - (t + 1) == idx);
            }
            let mut next = String::new();
            append_str(&mut next, ls[idx].as_str());
            push_char(&mut next, '\n');
            append_str(&mut next, tail.as_str());
            assert(next@ =~= lm[idx as int] + seq!['\n'] + with_newlines(lm.skip(n - t)));
            tail = next;
            tail_len = tail_len + l + 1;
            t = t + 1;
        }
        proof {
            if t == n {
                assert(lm.take(0) =~= Seq::<Seq<char>>::empty());
            }
        }
        let mut out = head;
        append_str(&mut out, "... (output truncated, ");
        push_decimal(&mut out, total as u64);
        append_str(&mut out, " total chars) ...\n");
        append_str(&mut out, tail.as_str());
        assert(out@ =~= truncated_text(result@, (max_tokens * 4) as nat));
        out
    }
}

/// What a truncation leaves of a history that was over its target: the first
/// message, a system note, and the most recent messages; when any recent
/// message is kept, the first message and the kept ones fit the target.
pub proof fn lemma_truncation_keeps_ends(cm: ContextManager, ms: Seq<MessageModel>, r: Seq<MessageModel>)
    requires
        cm.truncation_of(ms, r),
        ms.len() > 2,
        messages_cost(ms) > cm.target(),
    ensures
        2 <= r.len() <= ms.len(),
        r[0] == ms[0],
        r[1].role == Role::System,
        r.skip(2) == ms.skip(ms.len() - (r.len() - 2)),
        r.len() > 2 ==> message_cost(ms[0]) + messages_cost(r.skip(2)) <= cm.target(),
{
    let k = choose|k: int| 1 < k && #[trigger] is_cut_point(ms, cm.target(), k) && r == cut_history(ms, k);
    assert(r.skip(2) =~= ms.skip(k));
    assert(ms.len() - (r.len() - 2) == k);
}

} // verus!
