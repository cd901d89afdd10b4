//! Chat messages as the terminal shows them, and the text lines they take.

use vstd::prelude::*;

use crate::text::{append_str, concat_str, lines, split_lines};

verus! {

/// Who a chat message is from.
#[derive(Debug, Clone, Copy, PartialEq, Eq, Structural)]
pub enum ChatRole {
    User,
    Assistant,
    Tool,
    System,
}

/// A displayable chat message.
#[derive(Debug, Clone)]
pub struct ChatMessage {
    pub role: ChatRole,
    pub content: String,
    /// The tool's name, for a tool result
    pub tool_name: Option<String>,
    /// Whether the message is still streaming in
    pub is_streaming: bool,
    /// Whether the message reports an error
    pub is_error: bool,
}

/// Model of a chat message.
pub struct ChatMessageModel {
    pub role: ChatRole,
    pub content: Seq<char>,
    pub tool_name: Option<Seq<char>>,
    pub is_streaming: bool,
    pub is_error: bool,
}

impl View for ChatMessage {
    type V = ChatMessageModel;

    open spec fn view(&self) -> ChatMessageModel {
        ChatMessageModel {
            role: self.role,
            content: self.content@,
            tool_name: match self.tool_name {
                Some(n) => Some(n@),
                None => None,
            },
            is_streaming: self.is_streaming,
            is_error: self.is_error,
        }
    }
}

/// The models of a list of chat messages.
pub open spec fn chat_model(ms: Seq<ChatMessage>) -> Seq<ChatMessageModel> {
    ms.map_values(|m: ChatMessage| m@)
}

/// A finished message of the given role and text.
pub open spec fn plain_message(role: ChatRole, content: Seq<char>) -> ChatMessageModel {
    ChatMessageModel { role, content, tool_name: None, is_streaming: false, is_error: false }
}

/// A system message that reports an error.
pub open spec fn error_message(content: Seq<char>) -> ChatMessageModel {
    ChatMessageModel {
        role: ChatRole::System,
        content,
        tool_name: None,
        is_streaming: false,
        is_error: true,
    }
}

/// The result of a tool, as a message.
pub open spec fn tool_message(name: Seq<char>, result: Seq<char>, is_error: bool) -> ChatMessageModel {
    ChatMessageModel {
        role: ChatRole::Tool,
        content: result,
        tool_name: Some(name),
        is_streaming: false,
        is_error,
    }
}

impl ChatMessage {
    pub fn user(content: &str) -> (r: Self)
        ensures
            r@ == plain_message(ChatRole::User, content@),
    {
        ChatMessage {
            role: ChatRole::User,
            content: content.to_owned(),
            tool_name: None,
            is_streaming: false,
            is_error: false,
        }
    }

    pub fn assistant(content: &str) -> (r: Self)
        ensures
            r@ == plain_message(ChatRole::Assistant, content@),
    {
        ChatMessage {
            role: ChatRole::Assistant,
            content: content.to_owned(),
            tool_name: None,
            is_streaming: false,
            is_error: false,
        }
    }

    /// An empty assistant message that text will stream into.
    pub fn assistant_streaming() -> (r: Self)
        ensures
            r@ == (ChatMessageModel {
                role: ChatRole::Assistant,
                content: Seq::empty(),
                tool_name: None,
                is_streaming: true,
                is_error: false,
            }),
    {
        ChatMessage {
            role: ChatRole::Assistant,
            content: String::new(),
            tool_name: None,
            is_streaming: true,
            is_error: false,
        }
    }

    pub fn tool(name: &str, result: &str, is_error: bool) -> (r: Self)
        ensures
            r@ == tool_message(name@, result@, is_error),
    {
        ChatMessage {
            role: ChatRole::Tool,
            content: result.to_owned(),
            tool_name: Some(name.to_owned()),
            is_streaming: false,
            is_error,
        }
    }

    pub fn system(content: &str) -> (r: Self)
        ensures
            r@ == plain_message(ChatRole::System, content@),
    {
        ChatMessage {
            role: ChatRole::System,
            content: content.to_owned(),
            tool_name: None,
            is_streaming: false,
            is_error: false,
        }
    }

    pub fn error(content: &str) -> (r: Self)
        ensures
            r@ == error_message(content@),
    {
        ChatMessage {
            role: ChatRole::System,
            content: content.to_owned(),
            tool_name: None,
            is_streaming: false,
            is_error: true,
        }
    }
}

/// How a line of the chat area is drawn.
#[derive(Debug, Clone, Copy, PartialEq, Eq, Structural)]
pub enum LineStyle {
    Error,
    User,
    Assistant,
    System,
    ToolHeader,
    ToolBody,
    Blank,
    /// The title of an approval request
    Title,
    Plain,
    /// A line of the preview of an action
    Preview,
    /// The keys that answer an approval request
    Hint,
}

/// One line of the chat area.
pub struct ChatLine {
    pub style: LineStyle,
    pub text: String,
}

pub open spec fn lines_model(ls: Seq<ChatLine>) -> Seq<(LineStyle, Seq<char>)> {
    ls.map_values(|l: ChatLine| (l.style, l.text@))
}

/// Lines indented by two spaces, all in one style.
pub open spec fn indented(ls: Seq<Seq<char>>, style: LineStyle) -> Seq<(LineStyle, Seq<char>)> {
    ls.map_values(|l: Seq<char>| (style, "  "@ + l))
}

/// The marker and style of the first line of a message that is not a
/// tool result; an error wins over the role.
pub open spec fn message_prefix(m: ChatMessageModel) -> (Seq<char>, LineStyle) {
    if m.is_error {
        ("✗ "@, LineStyle::Error)
    } else {
        match m.role {
            ChatRole::User => ("❯ "@, LineStyle::User),
            ChatRole::Assistant => ("⚡ "@, LineStyle::Assistant),
            _ => ("◆ "@, LineStyle::System),
        }
    }
}

/// The lines that one message takes, followed by a blank line. A tool
/// result is a header with the tool's name over its indented lines; any
/// other message starts with its marker, and a streaming one ends in a
/// cursor block.
pub open spec fn message_lines(m: ChatMessageModel) -> Seq<(LineStyle, Seq<char>)> {
    if !m.is_error && m.role == ChatRole::Tool {
        let name = match m.tool_name {
            Some(n) => n,
            None => "tool"@,
        };
        seq![(LineStyle::ToolHeader, "⟐ "@ + name + " "@)] + indented(lines(m.content), LineStyle::ToolBody)
            + seq![(LineStyle::Blank, Seq::<char>::empty())]
    } else {
        let (prefix, style) = message_prefix(m);
        let text = if m.is_streaming {
            m.content + "▌"@
        } else {
            m.content
        };
        let ls = lines(text);
        let body = if ls.len() == 0 {
            seq![(style, prefix)]
        } else {
            seq![(style, prefix + ls[0])] + indented(ls.drop_first(), style)
        };
        body + seq![(LineStyle::Blank, Seq::<char>::empty())]
    }
}

/// The lines of all messages, in order.
pub open spec fn all_lines(ms: Seq<ChatMessageModel>) -> Seq<(LineStyle, Seq<char>)>
    decreases ms.len(),
{
    if ms.len() == 0 {
        Seq::empty()
    } else {
        all_lines(ms.drop_last()) + message_lines(ms.last())
    }
}

fn push_line(out: &mut Vec<ChatLine>, style: LineStyle, text: String)
    ensures
        lines_model(final(out)@) == lines_model(old(out)@).push((style, text@)),
{
    let ghost before = out@;
    out.push(ChatLine { style, text });
    assert(lines_model(out@) =~= lines_model(before).push((style, text@)));
}

/// Pushes the lines `ls[from..]`, each indented by two spaces.
fn push_indented(out: &mut Vec<ChatLine>, style: LineStyle, ls: &Vec<String>, from: usize)
    requires
        from <= ls@.len(),
    ensures
        lines_model(final(out)@) == lines_model(old(out)@) + indented(
            ls@.map_values(|l: String| l@).skip(from as int),
            style,
        ),
{
    let ghost base = lines_model(out@);
    let ghost texts = ls@.map_values(|l: String| l@);
    let mut i = from;
    assert(indented(texts.subrange(from as int, from as int), style) =~= Seq::empty());
    assert(base + Seq::empty() =~= base);
    while i < ls.len()
        invariant
            from <= i <= ls@.len(),
            texts == ls@.map_values(|l: String| l@),
            lines_model(out@) == base + indented(texts.subrange(from as int, i as int), style),
        decreases ls.len() - i,
    {
        let line = concat_str("  ", ls[i].as_str());
        push_line(out, style, line);
        assert(indented(texts.subrange(from as int, i + 1), style) =~= indented(
            texts.subrange(from as int, i as int),
            style,
        ).push((style, "  "@ + texts[i as int])));
        assert(lines_model(out@) =~= base + indented(texts.subrange(from as int, i + 1), style));
        i = i + 1;
    }
    assert(texts.subrange(from as int, ls@.len() as int) =~= texts.skip(from as int));
}

/// Appends the lines of one message.
fn push_message_lines(m: &ChatMessage, out: &mut Vec<ChatLine>)
    ensures
        lines_model(final(out)@) == lines_model(old(out)@) + message_lines(m@),
{
    let ghost base = lines_model(out@);
    if !m.is_error && m.role == ChatRole::Tool {
        let name: &str = match &m.tool_name {
            Some(n) => n.as_str(),
            None => "tool",
        };
        let mut header = "⟐ ".to_owned();
        append_str(&mut header, name);
        append_str(&mut header, " ");
        push_line(out, LineStyle::ToolHeader, header);
        let ls = split_lines(m.content.as_str());
        proof {
            assert(ls@.map_values(|l: String| l@) =~= lines(m.content@));
            assert(ls@.map_values(|l: String| l@).skip(0) =~= lines(m.content@));
        }
        push_indented(out, LineStyle::ToolBody, &ls, 0);
        push_line(out, LineStyle::Blank, String::new());
        assert(lines_model(out@) =~= base + message_lines(m@));
    } else {
        let (prefix, style): (&str, LineStyle) = if m.is_error {
            ("✗ ", LineStyle::Error)
        } else {
            match m.role {
                ChatRole::User => ("❯ ", LineStyle::User),
                ChatRole::Assistant => ("⚡ ", LineStyle::Assistant),
                _ => ("◆ ", LineStyle::System),
            }
        };
        let text = if m.is_streaming {
            concat_str(m.content.as_str(), "▌")
        } else {
            m.content.clone()
        };
        let ls = split_lines(text.as_str());
        let ghost texts = ls@.map_values(|l: String| l@);
        assert(texts =~= lines(text@));
        if ls.len() == 0 {
            push_line(out, style, prefix.to_owned());
        } else {
            let first = concat_str(prefix, ls[0].as_str());
            push_line(out, style, first);
            proof {
                assert(texts.skip(1) =~= lines(text@).drop_first());
            }
            push_indented(out, style, &ls, 1);
        }
        push_line(out, LineStyle::Blank, String::new());
        assert(lines_model(out@) =~= base + message_lines(m@));
    }
}

/// The lines of the chat area for the given messages.
pub fn chat_lines(messages: &Vec<ChatMessage>) -> (out: Vec<ChatLine>)
    ensures
        lines_model(out@) == all_lines(chat_model(messages@)),
{
    let mut out: Vec<ChatLine> = Vec::new();
    let mut i: usize = 0;
    assert(lines_model(out@) =~= Seq::empty());
    assert(chat_model(messages@).take(0) =~= Seq::empty());
    while i < messages.len()
        invariant
            i <= messages@.len(),
            lines_model(out@) == all_lines(chat_model(messages@).take(i as int)),
        decreases messages.len() - i,
    {
        push_message_lines(&messages[i], &mut out);
        let ghost ms = chat_model(messages@);
        assert(ms.take(i + 1).drop_last() =~= ms.take(i as int));
        i = i + 1;
    }
    assert(chat_model(messages@).take(messages@.len() as int) =~= chat_model(messages@));
    out
}

/// How many lines of a preview an approval request shows.
pub const PREVIEW_LINES: usize = 20;

/// The first lines of a text, at most `n` of them.
pub open spec fn first_lines(t: Seq<char>, n: nat) -> Seq<Seq<char>> {
    if lines(t).len() <= n {
        lines(t)
    } else {
        lines(t).take(n as int)
    }
}

/// The lines of an approval request: the tool, the description, the first
/// lines of the preview when there is one, and the answering keys.
pub open spec fn approval_view(tool_name: Seq<char>, description: Seq<char>, preview: Option<Seq<char>>) -> Seq<
    (LineStyle, Seq<char>),
> {
    let head = seq![
        (LineStyle::Title, "Tool: "@ + tool_name),
        (LineStyle::Blank, Seq::<char>::empty()),
        (LineStyle::Plain, description),
    ];
    let shown = match preview {
        Some(p) => seq![(LineStyle::Blank, Seq::<char>::empty())] + first_lines(p, PREVIEW_LINES as nat).map_values(
            |l: Seq<char>| (LineStyle::Preview, l),
        ),
        None => Seq::empty(),
    };
    head + shown + seq![
        (LineStyle::Blank, Seq::<char>::empty()),
        (LineStyle::Hint, "[y] Approve  [n] Deny  [a] Always approve"@),
    ]
}

/// The lines of an approval request.
pub fn approval_lines(tool_name: &str, description: &str, preview: Option<&str>) -> (out: Vec<ChatLine>)
    ensures
        lines_model(out@) == approval_view(
            tool_name@,
            description@,
            match preview {
                Some(p) => Some(p@),
                None => None,
            },
        ),
{
    let mut out: Vec<ChatLine> = Vec::new();
    assert(lines_model(out@) =~= Seq::empty());
    push_line(&mut out, LineStyle::Title, concat_str("Tool: ", tool_name));
    push_line(&mut out, LineStyle::Blank, String::new());
    push_line(&mut out, LineStyle::Plain, description.to_owned());
    let ghost head = lines_model(out@);
    let ghost pv = match preview {
        Some(p) => Some(p@),
        None => None,
    };
    match preview {
        Some(p) => {
            push_line(&mut out, LineStyle::Blank, String::new());
            let ls = split_lines(p);
            let ghost texts = ls@.map_values(|l: String| l@);
            assert(texts =~= lines(p@));
            let ghost base = lines_model(out@);
            let n = if ls.len() <= PREVIEW_LINES {
                ls.len()
            } else {
                PREVIEW_LINES
            };
            let mut i: usize = 0;
            assert(texts.take(0).map_values(|l: Seq<char>| (LineStyle::Preview, l)) =~= Seq::empty());
            assert(base + Seq::empty() =~= base);
            while i < n
                invariant
                    i <= n <= ls@.len(),
                    texts == ls@.map_values(|l: String| l@),
                    lines_model(out@) == base + texts.take(i as int).map_values(
                        |l: Seq<char>| (LineStyle::Preview, l),
                    ),
                decreases n - i,
            {
                push_line(&mut out, LineStyle::Preview, ls[i].clone());
                assert(texts.take(i + 1).map_values(|l: Seq<char>| (LineStyle::Preview, l)) =~= texts.take(
                    i as int,
                ).map_values(|l: Seq<char>| (LineStyle::Preview, l)).push((LineStyle::Preview, texts[i as int])));
                assert(lines_model(out@) =~= base + texts.take(i + 1).map_values(
                    |l: Seq<char>| (LineStyle::Preview, l),
                ));
                i = i + 1;
            }
            assert(texts.take(n as int) =~= first_lines(p@, PREVIEW_LINES as nat));
        },
        None => {},
    }
    push_line(&mut out, LineStyle::Blank, String::new());
    push_line(&mut out, LineStyle::Hint, "[y] Approve  [n] Deny  [a] Always approve".to_owned());
    assert(lines_model(out@) =~= approval_view(tool_name@, description@, pv));
    out
}

/// The first line to show: with offset 0 the view follows the bottom;
/// otherwise it stands `offset` lines above it. The line count is taken
/// modulo 2^16, as a 16-bit count, and two rows go to the borders.
pub open spec fn scroll_position(total_lines: nat, height: u16, offset: u16) -> int {
    let total = total_lines % 65536;
    let visible = if height >= 2 { height - 2 } else { 0 };
    let bottom = if total >= visible { total - visible } else { 0 };
    if offset == 0 {
        bottom
    } else if bottom >= offset {
        bottom - offset
    } else {
        0
    }
}

/// Where the chat area starts drawing, for `total_lines` lines in an area
/// `height` rows high.
pub fn chat_scroll(total_lines: usize, height: u16, offset: u16) -> (s: u16)
    ensures
        s == scroll_position(total_lines as nat, height, offset),
{
    let total = (total_lines % 65536) as u16;
    let visible = if height >= 2 {
        height - 2
    } else {
        0
    };
    let bottom = if total >= visible {
        total - visible
    } else {
        0
    };
    if offset == 0 {
        bottom
    } else if bottom >= offset {
        bottom - offset
    } else {
        0
    }
}

} // verus!
