//! Context compaction for long conversations: token estimates, when to compact,
//! what to keep, and how the extracted facts are merged and shown.
use vstd::prelude::*;

use super::types::{
    ChatContentBlock, ChatMessage, CompactedContext, CompactedFact, FactCategory, MessageRole,
};
use crate::bindings::{lowercase, to_lowercase};
use crate::text::{
    byte_prefix, byte_prefix_exec, chars_eq, chars_of, contains, contains_str, find_exec,
    find_first, find_last, is_char_boundary, lemma_find_first_some, push_all, push_str,
    replace_all, replace_str, rfind_exec, slice_chars, string_of, trim, trim_exec, utf8_len,
    utf8_len_exceeds,
};

verus! {

broadcast use vstd::string::group_string_axioms;

/// The context window assumed when the configuration gives none.
pub const DEFAULT_CONTEXT_LIMIT: u32 = 200_000;

/// Exchanges (a user and an assistant message each) kept verbatim by a normal compaction.
pub const PRESERVED_EXCHANGES: usize = 6;

/// Exchanges kept verbatim by an aggressive compaction.
pub const AGGRESSIVE_PRESERVED_EXCHANGES: usize = 4;

/// The most facts that a merged context keeps.
pub const MAX_FACTS: usize = 20;

/// The template of the extraction request; `{conversation}` is replaced by the conversation.
pub const DEFAULT_EXTRACTION_PROMPT: &'static str = "Analyze the conversation below and extract what must be remembered to continue the work.\n\nRespond with JSON only, in this form:\n{\"summary\": \"<one paragraph summary>\", \"facts\": [{\"category\": \"decision|preference|context|blocker\", \"content\": \"<fact>\"}]}\n\nConversation:\n{conversation}\n";

/// The response of the extraction request.
#[derive(Debug, Clone)]
pub struct ExtractionResponse {
    pub summary: String,
    pub facts: Vec<ExtractionFact>,
}

/// One extracted fact, with its category as the model wrote it.
#[derive(Debug, Clone)]
pub struct ExtractionFact {
    pub category: String,
    pub content: String,
}

/// The value of a remembered fact.
pub struct FactView {
    pub category: FactCategory,
    pub content: Seq<char>,
}

/// The value of a compacted context.
pub struct CompactedView {
    pub summary: Option<Seq<char>>,
    pub facts: Seq<FactView>,
}

/// The value of a fact.
pub open spec fn fact_view(f: CompactedFact) -> FactView {
    FactView { category: f.category, content: f.content@ }
}

/// The values of facts.
pub open spec fn facts_view(fs: Seq<CompactedFact>) -> Seq<FactView> {
    fs.map_values(|f: CompactedFact| fact_view(f))
}

/// The value of a compacted context.
pub open spec fn compacted_view(c: CompactedContext) -> CompactedView {
    CompactedView {
        summary: match c.summary {
            Some(s) => Some(s@),
            None => None,
        },
        facts: facts_view(c.facts@),
    }
}

// ---------------------------------------------------------------------------
// Token estimates
// ---------------------------------------------------------------------------

/// The token estimate of a text: a quarter of its characters, rounded down.
pub open spec fn tokens_spec(s: Seq<char>) -> u32 {
    (s.len() / 4) as u32
}

/// The token estimate of a content block.
pub open spec fn block_tokens_spec(b: ChatContentBlock) -> int {
    match b {
        ChatContentBlock::Text { text } => tokens_spec(text@) as int,
        ChatContentBlock::ToolUse { tool_name, tool_input, output, .. } => tokens_spec(tool_name@)
            + tokens_spec(tool_input@) + match output {
            Some(o) => tokens_spec(o@) as int,
            None => 0,
        },
    }
}

/// The token estimate of a message's blocks.
pub open spec fn blocks_tokens_spec(bs: Seq<ChatContentBlock>) -> int
    decreases bs.len(),
{
    if bs.len() == 0 {
        0
    } else {
        blocks_tokens_spec(bs.drop_last()) + block_tokens_spec(bs.last())
    }
}

/// The token estimate of messages.
pub open spec fn messages_tokens_spec(ms: Seq<ChatMessage>) -> int
    decreases ms.len(),
{
    if ms.len() == 0 {
        0
    } else {
        messages_tokens_spec(ms.drop_last()) + blocks_tokens_spec(ms.last().content_blocks@)
    }
}

/// The token estimate of the system prompt, the compacted context and the messages.
pub open spec fn context_size_spec(
    system: Option<Seq<char>>,
    ms: Seq<ChatMessage>,
    compacted: Option<CompactedView>,
) -> int {
    (match system {
        Some(s) => tokens_spec(s) as int,
        None => 0,
    }) + (match compacted {
        Some(c) => tokens_spec(format_compacted_spec(c)) as int,
        None => 0,
    }) + messages_tokens_spec(ms)
}

/// The context limit: the configured one, or the default.
pub fn get_context_limit(config_limit: Option<u32>) -> (r: u32)
    ensures
        r == match config_limit {
            Some(l) => l,
            None => DEFAULT_CONTEXT_LIMIT,
        },
{
    match config_limit {
        Some(l) => l,
        None => DEFAULT_CONTEXT_LIMIT,
    }
}

/// Estimates tokens as a quarter of the characters.
pub fn estimate_tokens(text: &str) -> (r: u32)
    ensures
        r == tokens_spec(text@),
{
    let v = chars_of(text);
    (v.len() / 4) as u32
}

fn estimate_block_tokens(block: &ChatContentBlock) -> (r: u32)
    requires
        block_tokens_spec(*block) <= u32::MAX,
    ensures
        r == block_tokens_spec(*block),
{
    match block {
        ChatContentBlock::Text { text } => estimate_tokens(text.as_str()),
        ChatContentBlock::ToolUse { tool_name, tool_input, output, .. } => {
            let mut tokens = estimate_tokens(tool_name.as_str());
            tokens = tokens + estimate_tokens(tool_input.as_str());
            match output {
                Some(out) => {
                    tokens = tokens + estimate_tokens(out.as_str());
                },
                None => {},
            }
            tokens
        },
    }
}

proof fn lemma_blocks_tokens_nonneg(bs: Seq<ChatContentBlock>, i: int)
    requires
        0 <= i <= bs.len(),
    ensures
        0 <= blocks_tokens_spec(bs.take(i)) <= blocks_tokens_spec(bs),
    decreases bs.len() - i,
{
    if i < bs.len() {
        lemma_blocks_tokens_nonneg(bs, i + 1);
        assert(bs.take(i + 1).drop_last() =~= bs.take(i));
        assert(bs.take(i + 1).last() == bs[i]);
        lemma_blocks_tokens_nonneg_full(bs.take(i));
    } else {
        assert(bs.take(i) =~= bs);
        lemma_blocks_tokens_nonneg_full(bs);
    }
}

proof fn lemma_blocks_tokens_nonneg_full(bs: Seq<ChatContentBlock>)
    ensures
        0 <= blocks_tokens_spec(bs),
    decreases bs.len(),
{
    if bs.len() > 0 {
        lemma_blocks_tokens_nonneg_full(bs.drop_last());
    }
}

proof fn lemma_messages_tokens_mono(ms: Seq<ChatMessage>, i: int)
    requires
        0 <= i <= ms.len(),
    ensures
        0 <= messages_tokens_spec(ms.take(i)) <= messages_tokens_spec(ms),
    decreases ms.len() - i,
{
    if i < ms.len() {
        lemma_messages_tokens_mono(ms, i + 1);
        assert(ms.take(i + 1).drop_last() =~= ms.take(i));
        assert(ms.take(i + 1).last() == ms[i]);
        lemma_blocks_tokens_nonneg_full(ms[i].content_blocks@);
        lemma_messages_tokens_nonneg(ms.take(i));
    } else {
        assert(ms.take(i) =~= ms);
        lemma_messages_tokens_nonneg(ms);
    }
}

proof fn lemma_messages_tokens_nonneg(ms: Seq<ChatMessage>)
    ensures
        0 <= messages_tokens_spec(ms),
    decreases ms.len(),
{
    if ms.len() > 0 {
        lemma_messages_tokens_nonneg(ms.drop_last());
        lemma_blocks_tokens_nonneg_full(ms.last().content_blocks@);
    }
}

/// Estimates the tokens of a message as the sum over its blocks.
pub fn estimate_message_tokens(message: &ChatMessage) -> (r: u32)
    requires
        blocks_tokens_spec(message.content_blocks@) <= u32::MAX,
    ensures
        r == blocks_tokens_spec(message.content_blocks@),
{
    let mut total: u32 = 0;
    let mut i: usize = 0;
    while i < message.content_blocks.len()
        invariant
            i <= message.content_blocks@.len(),
            blocks_tokens_spec(message.content_blocks@) <= u32::MAX,
            total == blocks_tokens_spec(message.content_blocks@.take(i as int)),
        decreases message.content_blocks@.len() - i,
    {
        proof {
            let bs = message.content_blocks@;
            assert(bs.take(i + 1).drop_last() =~= bs.take(i as int));
            lemma_blocks_tokens_nonneg(bs, i + 1);
            lemma_blocks_tokens_nonneg(bs, i as int);
        }
        let t = estimate_block_tokens(&message.content_blocks[i]);
        total = total + t;
        i = i + 1;
    }
    assert(message.content_blocks@.take(message.content_blocks@.len() as int)
        =~= message.content_blocks@);
    total
}

/// Estimates the tokens of everything sent to the model.
pub fn estimate_context_size(
    system_prompt: Option<&str>,
    messages: &[ChatMessage],
    compacted: Option<&CompactedContext>,
) -> (r: u32)
    requires
        context_size_spec(
            match system_prompt {
                Some(s) => Some(s@),
                None => None,
            },
            messages@,
            match compacted {
                Some(c) => Some(compacted_view(*c)),
                None => None,
            },
        ) <= u32::MAX,
    ensures
        r == context_size_spec(
            match system_prompt {
                Some(s) => Some(s@),
                None => None,
            },
            messages@,
            match compacted {
                Some(c) => Some(compacted_view(*c)),
                None => None,
            },
        ),
{
    let ghost sys = match system_prompt {
        Some(s) => Some(s@),
        None => None,
    };
    let ghost comp = match compacted {
        Some(c) => Some(compacted_view(*c)),
        None => None,
    };
    let mut total: u32 = 0;
    match system_prompt {
        Some(s) => {
            total = estimate_tokens(s);
        },
        None => {},
    }
    proof {
        lemma_messages_tokens_nonneg(messages@);
    }
    match compacted {
        Some(c) => {
            let f = format_compacted_context(c);
            total = total + estimate_tokens(f.as_str());
        },
        None => {},
    }
    let ghost base = total as int;
    let mut i: usize = 0;
    while i < messages.len()
        invariant
            i <= messages@.len(),
            base + messages_tokens_spec(messages@) <= u32::MAX,
            base >= 0,
            total == base + messages_tokens_spec(messages@.take(i as int)),
        decreases messages@.len() - i,
    {
        proof {
            assert(messages@.take(i + 1).drop_last() =~= messages@.take(i as int));
            lemma_messages_tokens_mono(messages@, i + 1);
            lemma_messages_tokens_nonneg(messages@.take(i as int));
            lemma_blocks_tokens_nonneg_full(messages@[i as int].content_blocks@);
        }
        let t = estimate_message_tokens(&messages[i]);
        total = total + t;
        i = i + 1;
    }
    assert(messages@.take(messages@.len() as int) =~= messages@);
    total
}

/// Whether the estimate exceeds 80% of the limit. For every `u32` limit,
/// `(limit as f64 * 0.8) as u32` is `4 * limit / 5` rounded down, so this is
/// `estimated_tokens > 4 * context_limit / 5`.
pub fn should_compact(estimated_tokens: u32, context_limit: u32) -> (r: bool)
    ensures
        r == (estimated_tokens > (4 * context_limit as int) / 5),
        r == (5 * estimated_tokens as int > 4 * context_limit as int),
{
    let threshold: u64 = (context_limit as u64) * 4 / 5;
    estimated_tokens as u64 > threshold
}

/// Splits the messages into the older part to compact and the recent part to
/// keep: 6 exchanges (12 messages) are kept, or 4 (8 messages) when
/// `aggressive`; with no more messages than that, nothing is compacted.
pub fn split_messages_for_compaction(messages: &[ChatMessage], aggressive: bool) -> (r: (
    Vec<&ChatMessage>,
    Vec<&ChatMessage>,
))
    ensures
        ({
            let keep = if aggressive {
                2 * AGGRESSIVE_PRESERVED_EXCHANGES
            } else {
                2 * PRESERVED_EXCHANGES
            };
            let split = if messages@.len() <= keep {
                0
            } else {
                messages@.len() - keep
            };
            &&& r.0@.map_values(|m: &ChatMessage| *m) == messages@.take(split as int)
            &&& r.1@.map_values(|m: &ChatMessage| *m) == messages@.skip(split as int)
        }),
{
    let preserve_count: usize = if aggressive {
        AGGRESSIVE_PRESERVED_EXCHANGES * 2
    } else {
        PRESERVED_EXCHANGES * 2
    };
    let split: usize = if messages.len() <= preserve_count {
        0
    } else {
        messages.len() - preserve_count
    };
    let mut a: Vec<&ChatMessage> = Vec::new();
    let mut b: Vec<&ChatMessage> = Vec::new();
    let mut i: usize = 0;
    while i < messages.len()
        invariant
            i <= messages@.len(),
            split <= messages@.len(),
            a@.map_values(|m: &ChatMessage| *m) == messages@.take(if i < split { i as int } else { split as int }),
            b@.map_values(|m: &ChatMessage| *m) == (if i < split {
                Seq::<ChatMessage>::empty()
            } else {
                messages@.subrange(split as int, i as int)
            }),
        decreases messages@.len() - i,
    {
        let m = &messages[i];
        assert(*m == messages@[i as int]);
        if i < split {
            let ghost before = a@;
            a.push(m);
            assert(a@ == before.push(m));
            assert(a@.map_values(|m: &ChatMessage| *m) =~= before.map_values(|m: &ChatMessage| *m).push(*m));
            assert(a@.map_values(|m: &ChatMessage| *m) =~= messages@.take(i + 1));
        } else {
            let ghost before = b@;
            b.push(m);
            assert(b@ == before.push(m));
            assert(b@.map_values(|m: &ChatMessage| *m) =~= before.map_values(|m: &ChatMessage| *m).push(*m));
            assert(b@.map_values(|m: &ChatMessage| *m) =~= messages@.subrange(split as int, i + 1));
        }
        i = i + 1;
    }
    assert(messages@.subrange(split as int, messages@.len() as int) =~= messages@.skip(split as int));
    assert(split == 0 ==> b@.map_values(|m: &ChatMessage| *m) =~= messages@.skip(0));
    (a, b)
}

// ---------------------------------------------------------------------------
// Extraction request
// ---------------------------------------------------------------------------

/// A tool output as shown to the extractor: cut after 500 bytes.
pub open spec fn shown_output(out: Seq<char>) -> Seq<char> {
    if utf8_len(out) > 500 {
        byte_prefix(out, 500) + "... (truncated)"@
    } else {
        out
    }
}

/// A tool output can be cut after 500 bytes without splitting a character.
pub open spec fn output_cuttable(out: Seq<char>) -> bool {
    utf8_len(out) > 500 ==> is_char_boundary(out, 500)
}

/// How a content block is written for the extractor.
pub open spec fn block_text_spec(b: ChatContentBlock) -> Seq<char> {
    match b {
        ChatContentBlock::Text { text } => text@ + "\n"@,
        ChatContentBlock::ToolUse { tool_name, tool_input, output, is_error, .. } => "[Tool: "@
            + tool_name@ + "]\n"@ + "Input: "@ + tool_input@ + "\n"@ + match output {
            Some(o) => "Output"@ + (if is_error == Some(true) {
                " [ERROR]"@
            } else {
                Seq::empty()
            }) + ": "@ + shown_output(o@) + "\n"@,
            None => Seq::empty(),
        },
    }
}

/// How the blocks of a message are written for the extractor.
pub open spec fn blocks_text_spec(bs: Seq<ChatContentBlock>) -> Seq<char>
    decreases bs.len(),
{
    if bs.len() == 0 {
        Seq::empty()
    } else {
        blocks_text_spec(bs.drop_last()) + block_text_spec(bs.last())
    }
}

/// The name written for a role.
pub open spec fn role_name(r: MessageRole) -> Seq<char> {
    match r {
        MessageRole::User => "User"@,
        MessageRole::Assistant => "Assistant"@,
    }
}

/// How a message is written for the extractor.
pub open spec fn message_text_spec(m: ChatMessage) -> Seq<char> {
    "## "@ + role_name(m.role) + "\n"@ + blocks_text_spec(m.content_blocks@) + "\n"@
}

/// How messages are written for the extractor.
pub open spec fn messages_text_spec(ms: Seq<ChatMessage>) -> Seq<char>
    decreases ms.len(),
{
    if ms.len() == 0 {
        Seq::empty()
    } else {
        messages_text_spec(ms.drop_last()) + message_text_spec(ms.last())
    }
}

/// Every tool output of the messages can be cut after 500 bytes.
pub open spec fn outputs_cuttable(ms: Seq<ChatMessage>) -> bool {
    forall|i: int, j: int|
        0 <= i < ms.len() && 0 <= j < ms[i].content_blocks@.len() ==> match #[trigger] ms[i].content_blocks@[j] {
            ChatContentBlock::ToolUse { output: Some(o), .. } => output_cuttable(o@),
            _ => true,
        }
}

fn write_block(out: &mut Vec<char>, block: &ChatContentBlock)
    requires
        match *block {
            ChatContentBlock::ToolUse { output: Some(o), .. } => output_cuttable(o@),
            _ => true,
        },
    ensures
        final(out)@ == old(out)@ + block_text_spec(*block),
{
    match block {
        ChatContentBlock::Text { text } => {
            push_str(out, text.as_str());
            push_str(out, "\n");
        },
        ChatContentBlock::ToolUse { tool_name, tool_input, output, is_error, .. } => {
            push_str(out, "[Tool: ");
            push_str(out, tool_name.as_str());
            push_str(out, "]\n");
            push_str(out, "Input: ");
            push_str(out, tool_input.as_str());
            push_str(out, "\n");
            match output {
                Some(o) => {
                    let err = match is_error {
                        Some(e) => *e,
                        None => false,
                    };
                    write_output(out, o.as_str(), err);
                    assert(out@ =~= old(out)@ + block_text_spec(*block));
                },
                None => {
                    assert(out@ =~= old(out)@ + block_text_spec(*block));
                },
            }
        },
    }
}

fn write_output(out: &mut Vec<char>, o: &str, err: bool)
    requires
        output_cuttable(o@),
    ensures
        final(out)@ == old(out)@ + "Output"@ + (if err {
            " [ERROR]"@
        } else {
            Seq::empty()
        }) + ": "@ + shown_output(o@) + "\n"@,
{
    let ov = chars_of(o);
    push_str(out, "Output");
    let ghost a = out@;
    if err {
        push_str(out, " [ERROR]");
    }
    let ghost b = out@;
    assert(b =~= a + (if err {
        " [ERROR]"@
    } else {
        Seq::empty()
    }));
    push_str(out, ": ");
    let ghost c = out@;
    if utf8_len_exceeds(ov.as_slice(), 500) {
        let p = byte_prefix_exec(ov.as_slice(), 500);
        push_all(out, p.as_slice());
        push_str(out, "... (truncated)");
    } else {
        push_all(out, ov.as_slice());
    }
    assert(out@ =~= c + shown_output(o@));
    push_str(out, "\n");
}

/// Writes the messages as text for the extraction request: each message as a
/// `## Role` heading followed by its blocks; tool outputs are cut after 500 bytes.
pub fn format_messages_for_extraction(messages: &[&ChatMessage]) -> (r: String)
    requires
        outputs_cuttable(messages@.map_values(|m: &ChatMessage| *m)),
    ensures
        r@ == messages_text_spec(messages@.map_values(|m: &ChatMessage| *m)),
{
    let ghost ms = messages@.map_values(|m: &ChatMessage| *m);
    let mut out: Vec<char> = Vec::new();
    let mut i: usize = 0;
    while i < messages.len()
        invariant
            i <= messages@.len(),
            ms == messages@.map_values(|m: &ChatMessage| *m),
            outputs_cuttable(ms),
            out@ == messages_text_spec(ms.take(i as int)),
        decreases messages@.len() - i,
    {
        let msg = messages[i];
        let ghost start = out@;
        push_str(&mut out, "## ");
        match msg.role {
            MessageRole::User => push_str(&mut out, "User"),
            MessageRole::Assistant => push_str(&mut out, "Assistant"),
        }
        push_str(&mut out, "\n");
        let ghost head = out@;
        let mut j: usize = 0;
        while j < msg.content_blocks.len()
            invariant
                j <= msg.content_blocks@.len(),
                *msg == ms[i as int],
                i < ms.len(),
                outputs_cuttable(ms),
                out@ == head + blocks_text_spec(msg.content_blocks@.take(j as int)),
            decreases msg.content_blocks@.len() - j,
        {
            proof {
                let b = ms[i as int].content_blocks@[j as int];
                assert(match b {
                    ChatContentBlock::ToolUse { output: Some(o), .. } => output_cuttable(o@),
                    _ => true,
                });
                assert(msg.content_blocks@.take(j + 1).drop_last() =~= msg.content_blocks@.take(
                    j as int,
                ));
            }
            write_block(&mut out, &msg.content_blocks[j]);
            j = j + 1;
        }
        push_str(&mut out, "\n");
        proof {
            assert(msg.content_blocks@.take(msg.content_blocks@.len() as int)
                =~= msg.content_blocks@);
            assert(ms.take(i + 1).drop_last() =~= ms.take(i as int));
            let role_lit = match msg.role {
                MessageRole::User => "User"@,
                MessageRole::Assistant => "Assistant"@,
            };
            assert(out@ =~= start + message_text_spec(ms[i as int]));
        }
        i = i + 1;
    }
    assert(ms.take(messages@.len() as int) =~= ms);
    string_of(out.as_slice())
}

/// Builds the extraction request: the custom template (or the default one) with
/// `{conversation}` replaced by the formatted messages.
pub fn build_extraction_prompt(formatted_messages: &str, custom_prompt: Option<&str>) -> (r: String)
    ensures
        r@ == replace_all(
            match custom_prompt {
                Some(c) => c@,
                None => DEFAULT_EXTRACTION_PROMPT@,
            },
            "{conversation}"@,
            formatted_messages@,
        ),
{
    let template = match custom_prompt {
        Some(c) => c,
        None => DEFAULT_EXTRACTION_PROMPT,
    };
    let t = chars_of(template);
    let f = chars_of(formatted_messages);
    proof {
        reveal_strlit("{conversation}");
    }
    let r = replace_str(t.as_slice(), "{conversation}", f.as_slice());
    string_of(r.as_slice())
}

// ---------------------------------------------------------------------------
// Reading the extraction response
// ---------------------------------------------------------------------------

/// The JSON inside a ```` ```json ```` fence, trimmed.
pub open spec fn json_fence_spec(r: Seq<char>) -> Option<Seq<char>> {
    match find_first(r, "```json"@) {
        Some(s) => match find_first(r.skip(s + 7), "```"@) {
            Some(e) => Some(trim(r.subrange(s + 7, s + 7 + e))),
            None => None,
        },
        None => None,
    }
}

/// The content of a plain ```` ``` ```` fence, trimmed, without a first line
/// (a language tag) that holds no `{`.
pub open spec fn plain_fence_spec(r: Seq<char>) -> Option<Seq<char>> {
    match find_first(r, "```"@) {
        Some(s) => match find_first(r.skip(s + 3), "```"@) {
            Some(e) => {
                let content = trim(r.subrange(s + 3, s + 3 + e));
                Some(
                    match find_first(content, "\n"@) {
                        Some(nl) => if !contains(content.take(nl), "{"@) {
                            trim(content.skip(nl))
                        } else {
                            content
                        },
                        None => content,
                    },
                )
            },
            None => None,
        },
        None => None,
    }
}

/// The JSON of a model's response: a ```` ```json ```` fence, else a plain
/// fence, else the text from the first `{` to the last `}`, else the whole
/// response. `None` when the last `}` comes before the first `{` with text
/// between them (the cut would be an inverted range).
pub open spec fn extract_json_spec(r: Seq<char>) -> Option<Seq<char>> {
    if json_fence_spec(r) is Some {
        json_fence_spec(r)
    } else if plain_fence_spec(r) is Some {
        plain_fence_spec(r)
    } else {
        match (find_first(r, "{"@), find_last(r, "}"@)) {
            (Some(s), Some(e)) => if s <= e + 1 {
                Some(r.subrange(s, e + 1))
            } else {
                None
            },
            _ => Some(r),
        }
    }
}

proof fn lemma_leading_ws_le(s: Seq<char>)
    ensures
        crate::text::leading_ws(s) <= s.len(),
    decreases s.len(),
{
    if s.len() > 0 {
        lemma_leading_ws_le(s.drop_first());
    }
}

proof fn lemma_trailing_ws_le(s: Seq<char>)
    ensures
        crate::text::trailing_ws(s) <= s.len(),
    decreases s.len(),
{
    if s.len() > 0 {
        lemma_trailing_ws_le(s.drop_last());
    }
}

/// Trimming keeps a stretch of the text, so it finds nothing that was not there.
proof fn lemma_trim_finds_nothing_new(s: Seq<char>, p: Seq<char>)
    ensures
        contains(trim(s), p) ==> contains(s, p),
{
    let a = crate::text::leading_ws(s) as int;
    lemma_leading_ws_le(s);
    let t = s.skip(a);
    lemma_trailing_ws_le(t);
    let b = crate::text::trailing_ws(t) as int;
    assert(trim(s) =~= s.subrange(a, s.len() - b));
    if contains(trim(s), p) {
        let k = choose|k: int| crate::text::occurs_at(trim(s), p, k);
        assert(s.subrange(a + k, a + k + p.len()) =~= trim(s).subrange(k, k + p.len()));
        assert(crate::text::occurs_at(s, p, a + k));
    }
}

/// When the response has a ```` ```json ```` fence at `s` (its first) closed by
/// ```` ``` ```` at `c` (the first after it), the JSON found is exactly the text
/// strictly between the two markers, trimmed; it holds no ```` ``` ````.
pub proof fn law_json_fence_content(r: Seq<char>, s: int, c: int)
    requires
        crate::text::is_first_occurrence(r, "```json"@, s),
        s + 7 <= c,
        crate::text::occurs_at(r, "```"@, c),
        forall|k: int| s + 7 <= k < c ==> !crate::text::occurs_at(r, "```"@, k),
    ensures
        extract_json_spec(r) == Some(trim(r.subrange(s + 7, c))),
        !contains(trim(r.subrange(s + 7, c)), "```"@),
{
    reveal_strlit("```json");
    reveal_strlit("```");
    let rest = r.skip(s + 7);
    let e = c - (s + 7);
    assert(rest.subrange(e, e + 3) =~= r.subrange(c, c + 3));
    assert forall|k: int| 0 <= k < e implies !crate::text::occurs_at(rest, "```"@, k) by {
        if crate::text::occurs_at(rest, "```"@, k) {
            assert(r.subrange(s + 7 + k, s + 7 + k + 3) =~= rest.subrange(k, k + 3));
            assert(crate::text::occurs_at(r, "```"@, s + 7 + k));
            assert(!crate::text::occurs_at(r, "```"@, s + 7 + k));
        }
    }
    assert(crate::text::is_first_occurrence(rest, "```"@, e));
    crate::text::lemma_find_first_is(r, "```json"@, s);
    crate::text::lemma_find_first_is(rest, "```"@, e);
    let inner = r.subrange(s + 7, c);
    assert forall|k: int| !crate::text::occurs_at(inner, "```"@, k) by {
        if crate::text::occurs_at(inner, "```"@, k) {
            assert(r.subrange(s + 7 + k, s + 7 + k + 3) =~= inner.subrange(k, k + 3));
            assert(crate::text::occurs_at(r, "```"@, s + 7 + k));
            assert(!crate::text::occurs_at(r, "```"@, s + 7 + k));
        }
    }
    lemma_trim_finds_nothing_new(inner, "```"@);
}

/// Finds the JSON in a model's response (see [`extract_json_spec`]).
pub fn extract_json_from_response(response: &str) -> (res: String)
    requires
        extract_json_spec(response@) is Some,
    ensures
        Some(res@) == extract_json_spec(response@),
{
    let r = chars_of(response);
    let _n = r.len();
    let fence_json = chars_of("```json");
    let fence = chars_of("```");
    let nl = chars_of("\n");
    let brace = chars_of("{");
    let close = chars_of("}");
    proof {
        reveal_strlit("```json");
        reveal_strlit("```");
        reveal_strlit("\n");
        reveal_strlit("{");
        reveal_strlit("}");
    }
    match find_exec(r.as_slice(), fence_json.as_slice()) {
        Some(s) => {
            proof {
                lemma_find_first_some(r@, fence_json@);
            }
            let after = slice_chars(r.as_slice(), s + 7, r.len());
            assert(after@ =~= r@.skip(s + 7));
            match find_exec(after.as_slice(), fence.as_slice()) {
                Some(e) => {
                    proof {
                        lemma_find_first_some(after@, fence@);
                    }
                    let inner = slice_chars(r.as_slice(), s + 7, s + 7 + e);
                    let t = trim_exec(inner.as_slice());
                    return string_of(t.as_slice());
                },
                None => {},
            }
        },
        None => {},
    }
    assert(json_fence_spec(response@) is None);
    match find_exec(r.as_slice(), fence.as_slice()) {
        Some(s) => {
            proof {
                lemma_find_first_some(r@, fence@);
            }
            let after = slice_chars(r.as_slice(), s + 3, r.len());
            assert(after@ =~= r@.skip(s + 3));
            match find_exec(after.as_slice(), fence.as_slice()) {
                Some(e) => {
                    proof {
                        lemma_find_first_some(after@, fence@);
                    }
                    let inner = slice_chars(r.as_slice(), s + 3, s + 3 + e);
                    let content = trim_exec(inner.as_slice());
                    let _m = content.len();
                    match find_exec(content.as_slice(), nl.as_slice()) {
                        Some(k) => {
                            proof {
                                lemma_find_first_some(content@, nl@);
                            }
                            let first = slice_chars(content.as_slice(), 0, k);
                            assert(first@ =~= content@.take(k as int));
                            if !contains_str(first.as_slice(), "{") {
                                let rest = slice_chars(content.as_slice(), k, content.len());
                                assert(rest@ =~= content@.skip(k as int));
                                let t = trim_exec(rest.as_slice());
                                return string_of(t.as_slice());
                            }
                            return string_of(content.as_slice());
                        },
                        None => {
                            return string_of(content.as_slice());
                        },
                    }
                },
                None => {},
            }
        },
        None => {},
    }
    assert(plain_fence_spec(response@) is None);
    match find_exec(r.as_slice(), brace.as_slice()) {
        Some(s) => {
            proof {
                lemma_find_first_some(r@, brace@);
            }
            match rfind_exec(r.as_slice(), close.as_slice()) {
                Some(e) => {
                    proof {
                        let k = choose|k: int| crate::text::is_last_occurrence(r@, close@, k);
                    }
                    assert(s <= e + 1);
                    let out = slice_chars(r.as_slice(), s, e + 1);
                    return string_of(out.as_slice());
                },
                None => {
                    proof {
                        assert(!exists|k: int| crate::text::is_last_occurrence(r@, close@, k));
                    }
                },
            }
        },
        None => {},
    }
    string_of(r.as_slice())
}

/// The category that a lowercased category name stands for.
pub open spec fn category_spec(s: Seq<char>) -> Option<FactCategory> {
    if s == "decision"@ {
        Some(FactCategory::Decision)
    } else if s == "preference"@ {
        Some(FactCategory::Preference)
    } else if s == "context"@ {
        Some(FactCategory::Context)
    } else if s == "blocker"@ {
        Some(FactCategory::Blocker)
    } else {
        None
    }
}

/// The category that a lowercased category name stands for.
pub fn fact_category(lowercased: &str) -> (r: Option<FactCategory>)
    ensures
        r == category_spec(lowercased@),
{
    let s = chars_of(lowercased);
    if chars_eq(s.as_slice(), chars_of("decision").as_slice()) {
        Some(FactCategory::Decision)
    } else if chars_eq(s.as_slice(), chars_of("preference").as_slice()) {
        Some(FactCategory::Preference)
    } else if chars_eq(s.as_slice(), chars_of("context").as_slice()) {
        Some(FactCategory::Context)
    } else if chars_eq(s.as_slice(), chars_of("blocker").as_slice()) {
        Some(FactCategory::Blocker)
    } else {
        None
    }
}

/// The facts kept from the extraction: those whose lowercased category is known.
pub open spec fn kept_facts_spec(fs: Seq<ExtractionFact>) -> Seq<FactView>
    decreases fs.len(),
{
    if fs.len() == 0 {
        Seq::empty()
    } else {
        let rest = kept_facts_spec(fs.drop_last());
        match category_spec(lowercase(fs.last().category@)) {
            Some(c) => rest.push(FactView { category: c, content: fs.last().content@ }),
            None => rest,
        }
    }
}

/// Turns the extraction response into a compacted context: its summary, and the
/// facts whose category (compared in lowercase) is decision, preference, context
/// or blocker.
pub fn extraction_to_compacted(response: ExtractionResponse) -> (r: CompactedContext)
    ensures
        compacted_view(r) == (CompactedView {
            summary: Some(response.summary@),
            facts: kept_facts_spec(response.facts@),
        }),
{
    let mut facts: Vec<CompactedFact> = Vec::new();
    let mut i: usize = 0;
    while i < response.facts.len()
        invariant
            i <= response.facts@.len(),
            facts_view(facts@) == kept_facts_spec(response.facts@.take(i as int)),
        decreases response.facts@.len() - i,
    {
        let f = &response.facts[i];
        let lower = to_lowercase(f.category.as_str());
        let ghost before = facts@;
        proof {
            assert(response.facts@.take(i + 1).drop_last() =~= response.facts@.take(i as int));
        }
        match fact_category(lower.as_str()) {
            Some(cat) => {
                let content = string_of(chars_of(f.content.as_str()).as_slice());
                facts.push(CompactedFact { category: cat, content });
                assert(facts_view(facts@) =~= facts_view(before).push(
                    FactView { category: cat, content: f.content@ },
                ));
            },
            None => {},
        }
        i = i + 1;
    }
    assert(response.facts@.take(response.facts@.len() as int) =~= response.facts@);
    CompactedContext { summary: Some(response.summary), facts }
}

// ---------------------------------------------------------------------------
// Merging and showing compacted contexts
// ---------------------------------------------------------------------------

/// Some fact of `fs` has the given content.
pub open spec fn has_content(fs: Seq<FactView>, c: Seq<char>) -> bool {
    exists|i: int| 0 <= i < fs.len() && fs[i].content == c
}

/// The facts `acc` followed by those of `new` whose content is not there yet
/// (checked against what was added before, in order).
pub open spec fn add_new_facts(acc: Seq<FactView>, new: Seq<FactView>) -> Seq<FactView>
    decreases new.len(),
{
    if new.len() == 0 {
        acc
    } else {
        let m = add_new_facts(acc, new.drop_last());
        if has_content(m, new.last().content) {
            m
        } else {
            m.push(new.last())
        }
    }
}

/// The summaries joined with a space.
pub open spec fn merged_summary(old: Option<Seq<char>>, new: Option<Seq<char>>) -> Option<Seq<char>> {
    match (old, new) {
        (Some(o), Some(n)) => Some(o + " "@ + n),
        (Some(o), None) => Some(o),
        (None, Some(n)) => Some(n),
        (None, None) => None,
    }
}

/// The merge of two compacted contexts.
pub open spec fn merge_spec(existing: CompactedView, new: CompactedView) -> CompactedView {
    if existing.summary is None && existing.facts.len() == 0 {
        new
    } else {
        let facts = add_new_facts(existing.facts, new.facts);
        CompactedView {
            summary: merged_summary(existing.summary, new.summary),
            facts: if facts.len() > MAX_FACTS {
                facts.take(MAX_FACTS as int)
            } else {
                facts
            },
        }
    }
}

/// No two facts share their content.
pub open spec fn distinct_contents(fs: Seq<FactView>) -> bool {
    forall|i: int, j: int| 0 <= i < j < fs.len() ==> #[trigger] fs[i].content != #[trigger] fs[j].content
}

proof fn lemma_add_new_facts(acc: Seq<FactView>, new: Seq<FactView>)
    ensures
        add_new_facts(acc, new).len() >= acc.len(),
        add_new_facts(acc, new).take(acc.len() as int) == acc,
        distinct_contents(acc) ==> distinct_contents(add_new_facts(acc, new)),
        forall|i: int| 0 <= i < new.len() ==> has_content(add_new_facts(acc, new), #[trigger] new[i].content),
    decreases new.len(),
{
    if new.len() > 0 {
        lemma_add_new_facts(acc, new.drop_last());
        let m = add_new_facts(acc, new.drop_last());
        let x = new.last();
        if !has_content(m, x.content) {
            let r = m.push(x);
            assert(r.take(acc.len() as int) =~= m.take(acc.len() as int));
            assert forall|i: int| 0 <= i < new.len() implies has_content(r, #[trigger] new[i].content) by {
                if i < new.len() - 1 {
                    assert(new.drop_last()[i] == new[i]);
                    let k = choose|k: int| 0 <= k < m.len() && m[k].content == new[i].content;
                    assert(r[k] == m[k]);
                } else {
                    assert(r[m.len() as int] == x);
                }
            }
        } else {
            assert forall|i: int| 0 <= i < new.len() implies has_content(m, #[trigger] new[i].content) by {
                if i < new.len() - 1 {
                    assert(new.drop_last()[i] == new[i]);
                }
            }
        }
    }
}

/// Merging into a remembered context keeps its summary first and its facts first
/// and in order, adds a fact only when no kept fact has its content (so contents
/// that were distinct stay distinct), and never keeps more than 20 facts.
pub proof fn law_merge_keeps_existing(existing: CompactedView, new: CompactedView)
    requires
        existing.summary is Some || existing.facts.len() > 0,
    ensures
        merge_spec(existing, new).summary == merged_summary(existing.summary, new.summary),
        merge_spec(existing, new).facts.len() <= MAX_FACTS,
        forall|i: int|
            0 <= i < existing.facts.len() && i < MAX_FACTS ==> #[trigger] merge_spec(existing, new).facts[i]
                == existing.facts[i],
        distinct_contents(existing.facts) ==> distinct_contents(merge_spec(existing, new).facts),
{
    lemma_add_new_facts(existing.facts, new.facts);
    let all = add_new_facts(existing.facts, new.facts);
    let kept = merge_spec(existing, new).facts;
    assert forall|i: int|
        0 <= i < existing.facts.len() && i < MAX_FACTS implies #[trigger] kept[i] == existing.facts[i] by {
        assert(all.take(existing.facts.len() as int)[i] == existing.facts[i]);
    }
    if distinct_contents(existing.facts) {
        assert forall|i: int, j: int| 0 <= i < j < kept.len() implies #[trigger] kept[i].content
            != #[trigger] kept[j].content by {
            assert(kept[i] == all[i]);
            assert(kept[j] == all[j]);
        }
    }
}

fn has_content_exec(fs: &Vec<CompactedFact>, c: &str) -> (r: bool)
    ensures
        r == has_content(facts_view(fs@), c@),
{
    let cv = chars_of(c);
    let mut i: usize = 0;
    while i < fs.len()
        invariant
            i <= fs@.len(),
            cv@ == c@,
            forall|j: int| 0 <= j < i ==> facts_view(fs@)[j].content != c@,
        decreases fs@.len() - i,
    {
        let fc = chars_of(fs[i].content.as_str());
        assert(facts_view(fs@)[i as int] == fact_view(fs@[i as int]));
        assert(fc@ == fs@[i as int].content@);
        if chars_eq(fc.as_slice(), cv.as_slice()) {
            assert(facts_view(fs@)[i as int].content == c@);
            return true;
        }
        i = i + 1;
    }
    false
}

fn copy_fact(f: &CompactedFact) -> (r: CompactedFact)
    ensures
        fact_view(r) == fact_view(*f),
{
    CompactedFact { category: f.category, content: string_of(chars_of(f.content.as_str()).as_slice()) }
}

/// Merges a new compacted context into the existing one. An empty existing
/// context gives the new one; otherwise the summaries are joined with a space,
/// the new facts whose content is not present yet are appended, and at most 20
/// facts are kept.
pub fn merge_compacted_contexts(existing: &CompactedContext, new: CompactedContext) -> (r:
    CompactedContext)
    ensures
        compacted_view(r) == merge_spec(compacted_view(*existing), compacted_view(new)),
{
    if existing.summary.is_none() && existing.facts.len() == 0 {
        return new;
    }
    let summary = match (&existing.summary, &new.summary) {
        (Some(old), Some(new_sum)) => {
            let mut v = chars_of(old.as_str());
            push_str(&mut v, " ");
            push_str(&mut v, new_sum.as_str());
            Some(string_of(v.as_slice()))
        },
        (Some(old), None) => Some(string_of(chars_of(old.as_str()).as_slice())),
        (None, Some(new_sum)) => Some(string_of(chars_of(new_sum.as_str()).as_slice())),
        (None, None) => None,
    };
    let mut facts: Vec<CompactedFact> = Vec::new();
    let mut i: usize = 0;
    while i < existing.facts.len()
        invariant
            i <= existing.facts@.len(),
            facts_view(facts@) == facts_view(existing.facts@).take(i as int),
        decreases existing.facts@.len() - i,
    {
        let ghost before = facts@;
        let f = copy_fact(&existing.facts[i]);
        facts.push(f);
        assert(facts_view(facts@) =~= facts_view(before).push(fact_view(existing.facts@[i as int])));
        assert(facts_view(facts@) =~= facts_view(existing.facts@).take(i + 1));
        i = i + 1;
    }
    assert(facts_view(existing.facts@).take(existing.facts@.len() as int) =~= facts_view(
        existing.facts@,
    ));
    let ghost nv = facts_view(new.facts@);
    let mut k: usize = 0;
    while k < new.facts.len()
        invariant
            k <= new.facts@.len(),
            nv == facts_view(new.facts@),
            facts_view(facts@) == add_new_facts(facts_view(existing.facts@), nv.take(k as int)),
        decreases new.facts@.len() - k,
    {
        proof {
            assert(nv.take(k + 1).drop_last() =~= nv.take(k as int));
        }
        let f = &new.facts[k];
        if !has_content_exec(&facts, f.content.as_str()) {
            let ghost before = facts@;
            facts.push(copy_fact(f));
            assert(facts_view(facts@) =~= facts_view(before).push(fact_view(*f)));
        }
        k = k + 1;
    }
    assert(nv.take(new.facts@.len() as int) =~= nv);
    if facts.len() > MAX_FACTS {
        let ghost before = facts@;
        facts.truncate(MAX_FACTS);
        assert(facts_view(facts@) =~= facts_view(before).take(MAX_FACTS as int));
    }
    CompactedContext { summary, facts }
}

/// The label written before a fact.
pub open spec fn category_label(c: FactCategory) -> Seq<char> {
    match c {
        FactCategory::Decision => "[DECISION]"@,
        FactCategory::Preference => "[PREFERENCE]"@,
        FactCategory::Context => "[CONTEXT]"@,
        FactCategory::Blocker => "[BLOCKER]"@,
    }
}

/// The fact lines of a compacted context.
pub open spec fn fact_lines_spec(fs: Seq<FactView>) -> Seq<char>
    decreases fs.len(),
{
    if fs.len() == 0 {
        Seq::empty()
    } else {
        fact_lines_spec(fs.drop_last()) + "- "@ + category_label(fs.last().category) + " "@
            + fs.last().content + "\n"@
    }
}

/// How a compacted context is shown to the model.
pub open spec fn format_compacted_spec(c: CompactedView) -> Seq<char> {
    "[Session Context]\n"@ + (match c.summary {
        Some(s) => "Summary: "@ + s + "\n\n"@,
        None => Seq::empty(),
    }) + (if c.facts.len() > 0 {
        "Key Facts:\n"@ + fact_lines_spec(c.facts) + "\n"@
    } else {
        Seq::empty()
    }) + "[Recent Conversation Follows]"@
}

/// Shows a compacted context: a `[Session Context]` header, the summary, the
/// facts with their category labels, and a marker before the recent messages.
pub fn format_compacted_context(context: &CompactedContext) -> (r: String)
    ensures
        r@ == format_compacted_spec(compacted_view(*context)),
{
    let mut out: Vec<char> = Vec::new();
    push_str(&mut out, "[Session Context]\n");
    let ghost a = out@;
    match &context.summary {
        Some(s) => {
            push_str(&mut out, "Summary: ");
            push_str(&mut out, s.as_str());
            push_str(&mut out, "\n\n");
        },
        None => {},
    }
    let ghost b = out@;
    let ghost fv = facts_view(context.facts@);
    if context.facts.len() > 0 {
        push_str(&mut out, "Key Facts:\n");
        let ghost head = out@;
        let mut i: usize = 0;
        while i < context.facts.len()
            invariant
                i <= context.facts@.len(),
                fv == facts_view(context.facts@),
                out@ == head + fact_lines_spec(fv.take(i as int)),
            decreases context.facts@.len() - i,
        {
            let f = &context.facts[i];
            push_str(&mut out, "- ");
            match f.category {
                FactCategory::Decision => push_str(&mut out, "[DECISION]"),
                FactCategory::Preference => push_str(&mut out, "[PREFERENCE]"),
                FactCategory::Context => push_str(&mut out, "[CONTEXT]"),
                FactCategory::Blocker => push_str(&mut out, "[BLOCKER]"),
            }
            push_str(&mut out, " ");
            push_str(&mut out, f.content.as_str());
            push_str(&mut out, "\n");
            proof {
                assert(fv.take(i + 1).drop_last() =~= fv.take(i as int));
                assert(out@ =~= head + fact_lines_spec(fv.take(i + 1)));
            }
            i = i + 1;
        }
        assert(fv.take(context.facts@.len() as int) =~= fv);
        push_str(&mut out, "\n");
    }
    push_str(&mut out, "[Recent Conversation Follows]");
    proof {
        assert(out@ =~= format_compacted_spec(compacted_view(*context)));
    }
    string_of(out.as_slice())
}

/// What a compaction check decides.
#[derive(Debug, Clone, Copy, PartialEq, Eq, Structural)]
pub enum CompactionPlan {
    /// The context is small enough.
    NotNeeded,
    /// The context is too large, but too few messages are there to compact.
    NotEnoughMessages,
    /// Compact the older messages (keeping fewer when `aggressive`).
    Compact { aggressive: bool, estimated_tokens: u32 },
}

/// The remembered context that counts toward the estimate: the existing one when
/// it holds a summary or a fact.
pub open spec fn counted_context(existing: CompactedContext) -> Option<CompactedView> {
    if existing.summary is Some || existing.facts@.len() > 0 {
        Some(compacted_view(existing))
    } else {
        None
    }
}

/// What a compaction check decides: nothing while the estimate stays within 80% of
/// the limit; else compact keeping 6 exchanges when more messages than that exist,
/// else keeping 4 when more than that exist, else report that it cannot.
pub open spec fn compaction_plan_spec(
    system_prompt: Option<Seq<char>>,
    messages: Seq<ChatMessage>,
    existing: CompactedContext,
    context_limit: u32,
) -> CompactionPlan {
    let estimate = context_size_spec(system_prompt, messages, counted_context(existing));
    if !(5 * estimate > 4 * context_limit) {
        CompactionPlan::NotNeeded
    } else if messages.len() > 2 * PRESERVED_EXCHANGES {
        CompactionPlan::Compact { aggressive: false, estimated_tokens: estimate as u32 }
    } else if messages.len() > 2 * AGGRESSIVE_PRESERVED_EXCHANGES {
        CompactionPlan::Compact { aggressive: true, estimated_tokens: estimate as u32 }
    } else {
        CompactionPlan::NotEnoughMessages
    }
}

/// Decides whether and how to compact a conversation.
pub fn plan_compaction(
    messages: &[ChatMessage],
    system_prompt: Option<&str>,
    existing: &CompactedContext,
    context_limit: u32,
) -> (r: CompactionPlan)
    requires
        context_size_spec(
            match system_prompt {
                Some(s) => Some(s@),
                None => None,
            },
            messages@,
            counted_context(*existing),
        ) <= u32::MAX,
    ensures
        r == compaction_plan_spec(
            match system_prompt {
                Some(s) => Some(s@),
                None => None,
            },
            messages@,
            *existing,
            context_limit,
        ),
{
    let has_content = existing.summary.is_some() || existing.facts.len() > 0;
    let estimate = if has_content {
        estimate_context_size(system_prompt, messages, Some(existing))
    } else {
        estimate_context_size(system_prompt, messages, None)
    };
    if !should_compact(estimate, context_limit) {
        return CompactionPlan::NotNeeded;
    }
    let (to_compact, _) = split_messages_for_compaction(messages, false);
    assert(to_compact@.len() == to_compact@.map_values(|m: &ChatMessage| *m).len());
    if to_compact.len() > 0 {
        return CompactionPlan::Compact { aggressive: false, estimated_tokens: estimate };
    }
    let (to_compact_aggressive, _) = split_messages_for_compaction(messages, true);
    assert(to_compact_aggressive@.len() == to_compact_aggressive@.map_values(
        |m: &ChatMessage| *m,
    ).len());
    if to_compact_aggressive.len() > 0 {
        return CompactionPlan::Compact { aggressive: true, estimated_tokens: estimate };
    }
    CompactionPlan::NotEnoughMessages
}

/// The warning when compaction is needed but impossible.
pub fn not_enough_messages_warning() -> (r: String)
    ensures
        r@ == "Unable to compact: not enough messages"@,
{
    crate::text::owned("Unable to compact: not enough messages")
}

/// What the extractor is asked to analyze: the messages to compact, after the
/// remembered context when it has a summary.
pub open spec fn extraction_input_spec(formatted: Seq<char>, existing: CompactedContext) -> Seq<char> {
    if existing.summary is Some {
        "Previous session context:\n"@ + format_compacted_spec(compacted_view(existing))
            + "\n\nNew conversation to analyze:\n"@ + formatted
    } else {
        formatted
    }
}

/// Builds what the extractor is asked to analyze.
pub fn extraction_input(formatted: &str, existing: &CompactedContext) -> (r: String)
    ensures
        r@ == extraction_input_spec(formatted@, *existing),
{
    if existing.summary.is_some() {
        let mut out = chars_of("Previous session context:\n");
        let f = format_compacted_context(existing);
        push_str(&mut out, f.as_str());
        push_str(&mut out, "\n\nNew conversation to analyze:\n");
        push_str(&mut out, formatted);
        string_of(out.as_slice())
    } else {
        crate::text::owned(formatted)
    }
}

/// The warning when the extraction's answer could not be read.
pub fn parse_failure_warning(detail: &str) -> (r: String)
    ensures
        r@ == "Failed to parse extraction: "@ + detail@,
{
    let mut out = chars_of("Failed to parse extraction: ");
    push_str(&mut out, detail);
    string_of(out.as_slice())
}

/// The warning when the extraction request failed.
pub fn extraction_failure_warning(detail: &str) -> (r: String)
    ensures
        r@ == "Extraction API failed: "@ + detail@,
{
    let mut out = chars_of("Extraction API failed: ");
    push_str(&mut out, detail);
    string_of(out.as_slice())
}

/// What a compaction tells the user interface.
#[derive(Debug, Clone, Copy)]
pub struct AgentCompactionPayload {
    pub original_tokens: u32,
    pub compacted_tokens: u32,
    pub facts_count: u32,
}

/// A compaction's warning to the user interface.
#[derive(Debug, Clone)]
pub struct AgentCompactionWarningPayload {
    pub message: String,
}

/// What a compaction leaves for the conversation: the messages kept verbatim and
/// the text of the remembered context.
#[derive(Debug)]
pub struct CompactionResult {
    pub preserved_messages: Vec<ChatMessage>,
    pub compacted_text: String,
}

/// Everything a finished compaction yields: the context to remember, what the
/// conversation continues with, and the report.
#[derive(Debug)]
pub struct CompactionOutcome {
    pub merged: CompactedContext,
    pub result: CompactionResult,
    pub payload: AgentCompactionPayload,
}

/// The context a compaction remembers: the existing one merged with what was
/// extracted.
pub open spec fn compacted_after(existing: CompactedContext, extraction: ExtractionResponse) -> CompactedView {
    merge_spec(
        compacted_view(existing),
        CompactedView { summary: Some(extraction.summary@), facts: kept_facts_spec(extraction.facts@) },
    )
}

/// Finishes a compaction once the extraction has answered: merges what it found
/// into the existing context, keeps the preserved messages, and reports the token
/// estimates before and after.
pub fn finish_compaction(
    existing: &CompactedContext,
    extraction: ExtractionResponse,
    to_preserve: Vec<ChatMessage>,
    original_tokens: u32,
) -> (r: CompactionOutcome)
    requires
        context_size_spec(None, to_preserve@, Some(compacted_after(*existing, extraction))) <= u32::MAX,
    ensures
        compacted_view(r.merged) == compacted_after(*existing, extraction),
        r.result.preserved_messages@ == to_preserve@,
        r.result.compacted_text@ == format_compacted_spec(compacted_view(r.merged)),
        r.payload.original_tokens == original_tokens,
        r.payload.compacted_tokens == context_size_spec(
            None,
            to_preserve@,
            Some(compacted_view(r.merged)),
        ),
        r.payload.facts_count == r.merged.facts@.len() as u32,
{
    let new_compacted = extraction_to_compacted(extraction);
    let merged = merge_compacted_contexts(existing, new_compacted);
    let compacted_text = format_compacted_context(&merged);
    let compacted_tokens = estimate_context_size(None, to_preserve.as_slice(), Some(&merged));
    let facts_count = merged.facts.len() as u32;
    CompactionOutcome {
        merged,
        result: CompactionResult { preserved_messages: to_preserve, compacted_text },
        payload: AgentCompactionPayload { original_tokens, compacted_tokens, facts_count },
    }
}

/// The system prompt followed by the remembered context, after a blank line.
pub open spec fn with_context_spec(base: Seq<char>, context_text: Seq<char>) -> Seq<char> {
    base + "\n\n"@ + context_text
}

/// What a turn is sent with: after a compaction, the preserved messages and the
/// system prompt with the new context; else all messages, and the system prompt
/// with the remembered context when there is one.
pub fn prepare_turn(
    base_system: &str,
    compaction: Option<CompactionResult>,
    messages: Vec<ChatMessage>,
    existing: &CompactedContext,
) -> (r: (Vec<ChatMessage>, String))
    ensures
        match compaction {
            Some(c) => r.0@ == c.preserved_messages@ && r.1@ == with_context_spec(
                base_system@,
                c.compacted_text@,
            ),
            None => r.0@ == messages@ && r.1@ == if existing.summary is Some
                || existing.facts@.len() > 0 {
                with_context_spec(base_system@, format_compacted_spec(compacted_view(*existing)))
            } else {
                base_system@
            },
        },
{
    match compaction {
        Some(c) => {
            let mut out = chars_of(base_system);
            push_str(&mut out, "\n\n");
            push_str(&mut out, c.compacted_text.as_str());
            (c.preserved_messages, string_of(out.as_slice()))
        },
        None => {
            if existing.summary.is_some() || existing.facts.len() > 0 {
                let text = format_compacted_context(existing);
                let mut out = chars_of(base_system);
                push_str(&mut out, "\n\n");
                push_str(&mut out, text.as_str());
                (messages, string_of(out.as_slice()))
            } else {
                (messages, crate::text::copy_string(base_system))
            }
        },
    }
}

} // verus!
