//! The Anthropic adapter's own logic: messages in the API's shape, the framing of
//! the event stream, and how streamed events build up a response.
use vstd::prelude::*;

use super::headless::{
    copy_reason, reason_view, HeadlessResponse, ToolCall as HeadlessToolCall,
    ToolResult as HeadlessToolResult,
};
use super::usage::TokenUsage;
use super::types::{
    AgentChunkPayload, AgentErrorPayload, ChatContentBlock, ChatMessage, ContentBlockStartPayload,
    ContentBlockType, MessageRole,
};
use crate::bindings::{json_compact, parse_json_value};
use crate::text::{
    chars_of, find_exec, find_first, lines, lines_exec, owned, push_str, slice_chars,
    starts_with, starts_with_str, string_of, vecs_view,
};

verus! {

broadcast use vstd::string::group_string_axioms;

/// A content block of a request or a response.
#[derive(Debug, Clone)]
pub enum ContentBlock {
    Text { text: String },
    /// A tool call; its input is JSON text.
    ToolUse { id: String, name: String, input: String },
    ToolResult { tool_use_id: String, content: String, is_error: Option<bool> },
}

/// The content of a message: plain text, or blocks.
#[derive(Debug, Clone)]
pub enum MessageContent {
    Text(String),
    Blocks(Vec<ContentBlock>),
}

/// A message in the API's shape.
#[derive(Debug, Clone)]
pub struct AnthropicMessage {
    pub role: String,
    pub content: MessageContent,
}

/// The body of an error answer.
#[derive(Debug, Clone)]
pub struct AnthropicErrorResponse {
    pub error: AnthropicErrorDetail,
}

/// The detail of an error answer.
#[derive(Debug, Clone)]
pub struct AnthropicErrorDetail {
    pub message: String,
}

/// The start of a message.
#[derive(Debug, Clone)]
pub struct MessageStartData {
    pub id: String,
    pub model: String,
    pub stop_reason: Option<String>,
}

/// An increment of a content block.
#[derive(Debug, Clone)]
pub enum ContentDelta {
    TextDelta { text: String },
    InputJsonDelta { partial_json: String },
}

/// The change of a message's metadata.
#[derive(Debug, Clone)]
pub struct MessageDeltaData {
    pub stop_reason: Option<String>,
}

/// Token usage reported at the end of a message.
#[derive(Debug, Clone, Copy)]
pub struct UsageData {
    pub output_tokens: u32,
}

/// An event of the stream.
#[derive(Debug, Clone)]
pub enum AnthropicEvent {
    MessageStart { message: MessageStartData },
    ContentBlockStart { index: u32, content_block: ContentBlock },
    ContentBlockDelta { index: u32, delta: ContentDelta },
    ContentBlockStop { index: u32 },
    MessageDelta { delta: MessageDeltaData, usage: Option<UsageData> },
    MessageStop,
    Ping,
    Error { error: AnthropicErrorDetail },
}

/// The value of a content block.
pub enum BlockView {
    Text(Seq<char>),
    ToolUse(Seq<char>, Seq<char>, Seq<char>),
    ToolResult(Seq<char>, Seq<char>, Option<bool>),
}

/// The value of a content block.
pub open spec fn block_view(b: ContentBlock) -> BlockView {
    match b {
        ContentBlock::Text { text } => BlockView::Text(text@),
        ContentBlock::ToolUse { id, name, input } => BlockView::ToolUse(id@, name@, input@),
        ContentBlock::ToolResult { tool_use_id, content, is_error } => BlockView::ToolResult(
            tool_use_id@,
            content@,
            is_error,
        ),
    }
}

/// The values of content blocks.
pub open spec fn blocks_view(v: Seq<ContentBlock>) -> Seq<BlockView> {
    v.map_values(|b: ContentBlock| block_view(b))
}

/// The value of a chat block in the API's shape.
pub open spec fn chat_block_view(b: ChatContentBlock) -> BlockView {
    match b {
        ChatContentBlock::Text { text } => BlockView::Text(text@),
        ChatContentBlock::ToolUse { tool_use_id, tool_name, tool_input, .. } => BlockView::ToolUse(
            tool_use_id@,
            tool_name@,
            tool_input@,
        ),
    }
}

/// The role's name in the API.
pub open spec fn role_text(r: MessageRole) -> Seq<char> {
    match r {
        MessageRole::User => "user"@,
        MessageRole::Assistant => "assistant"@,
    }
}

fn block_of(b: &ChatContentBlock) -> (r: ContentBlock)
    ensures
        block_view(r) == chat_block_view(*b),
{
    match b {
        ChatContentBlock::Text { text } => ContentBlock::Text { text: crate::text::copy_string(text.as_str()) },
        ChatContentBlock::ToolUse { tool_use_id, tool_name, tool_input, .. } => ContentBlock::ToolUse {
            id: crate::text::copy_string(tool_use_id.as_str()),
            name: crate::text::copy_string(tool_name.as_str()),
            input: crate::text::copy_string(tool_input.as_str()),
        },
    }
}

/// A chat message in the API's shape: its role, and its blocks, or the text alone
/// when it is a single text block.
pub fn message_from_chat(msg: &ChatMessage) -> (r: AnthropicMessage)
    ensures
        r.role@ == role_text(msg.role),
        ({
            let bs = msg.content_blocks@.map_values(|b: ChatContentBlock| chat_block_view(b));
            if bs.len() == 1 && bs[0] is Text {
                r.content matches MessageContent::Text(t) && BlockView::Text(t@) == bs[0]
            } else {
                r.content matches MessageContent::Blocks(v) && blocks_view(v@) == bs
            }
        }),
{
    let role = match msg.role {
        MessageRole::User => owned("user"),
        MessageRole::Assistant => owned("assistant"),
    };
    let ghost want = msg.content_blocks@.map_values(|b: ChatContentBlock| chat_block_view(b));
    let mut blocks: Vec<ContentBlock> = Vec::new();
    let mut i: usize = 0;
    while i < msg.content_blocks.len()
        invariant
            i <= msg.content_blocks@.len(),
            want == msg.content_blocks@.map_values(|b: ChatContentBlock| chat_block_view(b)),
            blocks_view(blocks@) == want.take(i as int),
        decreases msg.content_blocks@.len() - i,
    {
        let ghost before = blocks@;
        blocks.push(block_of(&msg.content_blocks[i]));
        assert(blocks_view(blocks@) =~= blocks_view(before).push(want[i as int]));
        assert(want.take(i + 1) =~= want.take(i as int).push(want[i as int]));
        i = i + 1;
    }
    assert(want.take(msg.content_blocks@.len() as int) =~= want);
    let content = if blocks.len() == 1 {
        match &blocks[0] {
            ContentBlock::Text { text } => MessageContent::Text(crate::text::copy_string(text.as_str())),
            _ => MessageContent::Blocks(blocks),
        }
    } else {
        MessageContent::Blocks(blocks)
    };
    AnthropicMessage { role, content }
}

/// Accumulates the events of a streamed response into complete content blocks.
#[derive(Debug)]
pub struct StreamedResponse {
    pub content_blocks: Vec<ContentBlock>,
    pub stop_reason: Option<String>,
    /// The block being received, if any.
    pub current_block_index: Option<u32>,
    /// The tool input received so far for the block being received.
    pub current_tool_json: String,
    /// The tokens the response reported.
    pub usage: TokenUsage,
}

/// A block started: it is added (a tool call without input yet) and becomes the
/// current block, with no tool input gathered yet.
pub open spec fn block_started(
    o: StreamedResponse,
    n: StreamedResponse,
    index: u32,
    block: ContentBlock,
) -> bool {
    &&& n.current() == Some(index)
    &&& n.pending_json() == Seq::<char>::empty()
    &&& n.stop_reason == o.stop_reason
    &&& n.usage == o.usage
    &&& blocks_view(n.content_blocks@) == blocks_view(o.content_blocks@).push(
        match block {
            ContentBlock::ToolUse { id, name, .. } => BlockView::ToolUse(id@, name@, "null"@),
            _ => block_view(block),
        },
    )
}

/// An increment was taken in: text appended to a text block, tool input gathered
/// for a tool call; anything else, or an index past the blocks, changes nothing.
pub open spec fn delta_applied(
    o: StreamedResponse,
    n: StreamedResponse,
    index: u32,
    delta: ContentDelta,
) -> bool {
    &&& n.current() == o.current()
    &&& n.stop_reason == o.stop_reason
    &&& n.usage == o.usage
    &&& {
        let old_blocks = blocks_view(o.content_blocks@);
        let i = index as int;
        if i < old_blocks.len() {
            match (old_blocks[i], delta) {
                (BlockView::Text(t), ContentDelta::TextDelta { text }) => blocks_view(
                    n.content_blocks@,
                ) == old_blocks.update(i, BlockView::Text(t + text@)) && n.pending_json()
                    == o.pending_json(),
                (BlockView::ToolUse(..), ContentDelta::InputJsonDelta { partial_json }) =>
                blocks_view(n.content_blocks@) == old_blocks && n.pending_json() == o.pending_json()
                    + partial_json@,
                _ => blocks_view(n.content_blocks@) == old_blocks && n.pending_json()
                    == o.pending_json(),
            }
        } else {
            blocks_view(n.content_blocks@) == old_blocks && n.pending_json() == o.pending_json()
        }
    }
}

/// A block ended: a tool call takes the gathered input when it is JSON (compacted);
/// the gathered input is dropped and no block is current.
pub open spec fn block_stopped(o: StreamedResponse, n: StreamedResponse, index: u32) -> bool {
    &&& n.current() is None
    &&& n.pending_json() == Seq::<char>::empty()
    &&& n.stop_reason == o.stop_reason
    &&& n.usage == o.usage
    &&& {
        let old_blocks = blocks_view(o.content_blocks@);
        let i = index as int;
        if i < old_blocks.len() && old_blocks[i] is ToolUse && o.pending_json().len() > 0
            && json_compact(o.pending_json()) is Some {
            match old_blocks[i] {
                BlockView::ToolUse(id, name, _) => blocks_view(n.content_blocks@)
                    == old_blocks.update(
                    i,
                    BlockView::ToolUse(id, name, json_compact(o.pending_json()).unwrap()),
                ),
                _ => true,
            }
        } else {
            blocks_view(n.content_blocks@) == old_blocks
        }
    }
}

impl StreamedResponse {
    /// The block being received, if any.
    pub open spec fn current(&self) -> Option<u32> {
        self.current_block_index
    }

    /// The tool input received so far for the block being received.
    pub open spec fn pending_json(&self) -> Seq<char> {
        self.current_tool_json@
    }

    /// An empty response.
    pub fn new() -> (r: Self)
        ensures
            r.content_blocks@.len() == 0,
            r.stop_reason is None,
            r.current() is None,
            r.pending_json() == Seq::<char>::empty(),
            r.usage.input_tokens == 0,
            r.usage.output_tokens == 0,
    {
        StreamedResponse {
            content_blocks: Vec::new(),
            stop_reason: None,
            current_block_index: None,
            current_tool_json: String::new(),
            usage: TokenUsage { input_tokens: 0, output_tokens: 0 },
        }
    }

    /// A block starts: it is added (a tool call without input yet) and becomes the
    /// current block.
    pub fn on_content_block_start(&mut self, index: u32, block: ContentBlock)
        ensures
            block_started(*old(self), *final(self), index, block),
    {
        self.current_block_index = Some(index);
        self.current_tool_json = String::new();
        let ghost before = self.content_blocks@;
        let b = match block {
            ContentBlock::ToolUse { id, name, .. } => ContentBlock::ToolUse { id, name, input: owned("null") },
            other => other,
        };
        self.content_blocks.push(b);
        assert(blocks_view(self.content_blocks@) =~= blocks_view(before).push(block_view(b)));
    }

    /// An increment arrives: text is appended to a text block; tool input is
    /// gathered while a tool call is received; anything else is ignored.
    pub fn on_content_delta(&mut self, index: u32, delta: ContentDelta)
        ensures
            delta_applied(*old(self), *final(self), index, delta),
    {
        let i = index as usize;
        if i >= self.content_blocks.len() {
            return;
        }
        let ghost before = self.content_blocks@;
        match (&self.content_blocks[i], &delta) {
            (ContentBlock::Text { text }, ContentDelta::TextDelta { text: more }) => {
                let mut t = chars_of(text.as_str());
                push_str(&mut t, more.as_str());
                let updated = ContentBlock::Text { text: string_of(t.as_slice()) };
                self.content_blocks.set(i, updated);
                assert(blocks_view(self.content_blocks@) =~= blocks_view(before).update(
                    i as int,
                    block_view(updated),
                ));
            },
            (ContentBlock::ToolUse { .. }, ContentDelta::InputJsonDelta { partial_json }) => {
                let mut j = chars_of(self.current_tool_json.as_str());
                push_str(&mut j, partial_json.as_str());
                self.current_tool_json = string_of(j.as_slice());
            },
            _ => {},
        }
    }

    /// A block ends: a tool call takes the gathered input when it is JSON; the
    /// gathered input is dropped and no block is current.
    pub fn on_content_block_stop(&mut self, index: u32)
        ensures
            block_stopped(*old(self), *final(self), index),
    {
        let i = index as usize;
        if i < self.content_blocks.len() {
            let ghost before = self.content_blocks@;
            match &self.content_blocks[i] {
                ContentBlock::ToolUse { id, name, .. } => {
                    if !self.current_tool_json.as_str().is_empty() {
                        match parse_json_value(self.current_tool_json.as_str()) {
                            Some(parsed) => {
                                let updated = ContentBlock::ToolUse {
                                    id: crate::text::copy_string(id.as_str()),
                                    name: crate::text::copy_string(name.as_str()),
                                    input: parsed,
                                };
                                self.content_blocks.set(i, updated);
                                assert(blocks_view(self.content_blocks@) =~= blocks_view(
                                    before,
                                ).update(i as int, block_view(updated)));
                            },
                            None => {},
                        }
                    }
                },
                _ => {},
            }
        }
        self.current_tool_json = String::new();
        self.current_block_index = None;
    }

    /// The message's metadata changes: its stop reason is the new one.
    pub fn on_message_delta(&mut self, delta: MessageDeltaData)
        ensures
            final(self).stop_reason == delta.stop_reason,
            final(self).content_blocks == old(self).content_blocks,
            final(self).usage == old(self).usage,
            final(self).current() == old(self).current(),
            final(self).pending_json() == old(self).pending_json(),
    {
        self.stop_reason = delta.stop_reason;
    }

    /// Whether the response calls a tool.
    pub fn has_tool_use(&self) -> (r: bool)
        ensures
            r == exists|i: int|
                0 <= i < self.content_blocks@.len() && (#[trigger] self.content_blocks@[i]) is ToolUse,
    {
        let mut i: usize = 0;
        while i < self.content_blocks.len()
            invariant
                i <= self.content_blocks@.len(),
                forall|j: int| 0 <= j < i ==> !((#[trigger] self.content_blocks@[j]) is ToolUse),
            decreases self.content_blocks@.len() - i,
        {
            if let ContentBlock::ToolUse { .. } = &self.content_blocks[i] {
                assert(self.content_blocks@[i as int] is ToolUse);
                return true;
            }
            i = i + 1;
        }
        false
    }

    /// The number of blocks, as the `u32` it is counted in.
    pub fn block_count(&self) -> (r: u32)
        ensures
            r == self.content_blocks@.len() as u32,
    {
        self.content_blocks.len() as u32
    }
}

/// Events complete in the buffer: the text before each blank line, in order, and what
/// is left after the last one.
pub open spec fn sse_split(buffer: Seq<char>) -> (Seq<Seq<char>>, Seq<char>)
    decreases buffer.len(),
{
    match find_first(buffer, "\n\n"@) {
        Some(end) => if 0 <= end && end + 2 <= buffer.len() {
            let (rest_events, rest) = sse_split(buffer.skip(end + 2));
            (seq![buffer.take(end)] + rest_events, rest)
        } else {
            (seq![], buffer)
        },
        None => (seq![], buffer),
    }
}

/// Takes the complete events out of a stream buffer: each event ends at a blank
/// line; what follows the last one stays in the buffer.
pub fn take_sse_events(buffer: &str) -> (r: (Vec<String>, String))
    ensures
        crate::text::strings_view(r.0@) == sse_split(buffer@).0,
        r.1@ == sse_split(buffer@).1,
{
    proof {
        reveal_strlit("\n\n");
    }
    let sep = chars_of("\n\n");
    let mut rest = chars_of(buffer);
    let mut events: Vec<String> = Vec::new();
    loop
        invariant
            sep@ == "\n\n"@,
            sep@.len() == 2,
            crate::text::strings_view(events@) + sse_split(rest@).0 == sse_split(buffer@).0,
            sse_split(rest@).1 == sse_split(buffer@).1,
        decreases rest@.len(),
    {
        match find_exec(rest.as_slice(), sep.as_slice()) {
            Some(end) => {
                proof {
                    crate::text::lemma_find_first_some(rest@, sep@);
                }
                let n = rest.len();
                assert(end + 2 <= n);
                let ev = slice_chars(rest.as_slice(), 0, end);
                let after = slice_chars(rest.as_slice(), end + 2, n);
                assert(ev@ =~= rest@.take(end as int));
                assert(after@ =~= rest@.skip(end + 2));
                let ghost before = events@;
                events.push(string_of(ev.as_slice()));
                assert(crate::text::strings_view(events@) =~= crate::text::strings_view(before).push(
                    ev@,
                ));
                assert(crate::text::strings_view(events@) + sse_split(after@).0 =~= crate::text::strings_view(
                    before,
                ) + sse_split(rest@).0);
                rest = after;
            },
            None => {
                assert(crate::text::strings_view(events@) =~= crate::text::strings_view(events@) + sse_split(
                    rest@,
                ).0);
                return (events, string_of(rest.as_slice()));
            },
        }
    }
}

/// The payload of an event: the text after `data: ` on its last such line; nothing
/// when there is none or it is `[DONE]`.
pub open spec fn sse_payload(event: Seq<char>) -> Option<Seq<char>> {
    let ls = lines(event);
    if exists|i: int| 0 <= i < ls.len() && starts_with(#[trigger] ls[i], "data: "@) {
        let i = choose|i: int|
            0 <= i < ls.len() && starts_with(#[trigger] ls[i], "data: "@) && forall|j: int|
                i < j < ls.len() ==> !starts_with(#[trigger] ls[j], "data: "@);
        let d = ls[i].skip(6);
        if d == "[DONE]"@ {
            None
        } else {
            Some(d)
        }
    } else {
        None
    }
}

/// Reads the payload of an event.
pub fn event_payload(event: &str) -> (r: Option<String>)
    ensures
        match r {
            Some(d) => sse_payload(event@) == Some(d@),
            None => sse_payload(event@) is None,
        },
{
    proof {
        reveal_strlit("data: ");
    }
    let ev = chars_of(event);
    let ls = lines_exec(ev.as_slice());
    let ghost lv = vecs_view(ls@);
    let mut found: Option<usize> = None;
    let mut i: usize = 0;
    while i < ls.len()
        invariant
            i <= ls@.len(),
            lv == vecs_view(ls@),
            lv == lines(event@),
            match found {
                Some(k) => k < i && starts_with(lv[k as int], "data: "@) && forall|j: int|
                    k < j < i ==> !starts_with(#[trigger] lv[j], "data: "@),
                None => forall|j: int| 0 <= j < i ==> !starts_with(#[trigger] lv[j], "data: "@),
            },
        decreases ls@.len() - i,
    {
        if starts_with_str(ls[i].as_slice(), "data: ") {
            found = Some(i);
        }
        i = i + 1;
    }
    match found {
        Some(k) => {
            let line = &ls[k];
            let d = slice_chars(line.as_slice(), 6, line.len());
            proof {
                assert(d@ =~= lv[k as int].skip(6));
                let c = choose|c: int|
                    0 <= c < lv.len() && starts_with(#[trigger] lv[c], "data: "@) && forall|j: int|
                        c < j < lv.len() ==> !starts_with(#[trigger] lv[j], "data: "@);
                assert(starts_with(lv[k as int], "data: "@));
                if c != k {
                    if c < k {
                        assert(!starts_with(lv[k as int], "data: "@));
                    } else {
                        assert(!starts_with(lv[c], "data: "@));
                    }
                }
            }
            let done = chars_of("[DONE]");
            if crate::text::chars_eq(d.as_slice(), done.as_slice()) {
                None
            } else {
                Some(string_of(d.as_slice()))
            }
        },
        None => None,
    }
}

/// What an event makes the adapter tell the user interface.
#[derive(Debug, Clone)]
pub enum Emission {
    BlockStart(ContentBlockStartPayload),
    Chunk(AgentChunkPayload),
    Error(AgentErrorPayload),
}

/// The effect of one event: what to tell the user interface, and whether it
/// carried text.
#[derive(Debug, Clone)]
pub struct EventEffect {
    pub emission: Option<Emission>,
    pub is_text: bool,
}

impl StreamedResponse {
    /// Applies an event of the stream to the response; blocks are numbered for the
    /// user interface from `block_offset` on.
    pub fn apply_event(&mut self, event: AnthropicEvent, block_offset: u32) -> (r: EventEffect)
        requires
            match event {
                AnthropicEvent::ContentBlockStart { index, .. } => block_offset + index <= u32::MAX,
                AnthropicEvent::ContentBlockDelta { index, .. } => block_offset + index <= u32::MAX,
                _ => true,
            },
        ensures
            match event {
                AnthropicEvent::ContentBlockStart { index, content_block } => {
                    &&& block_started(*old(self), *final(self), index, content_block)
                    &&& !r.is_text
                    &&& match content_block {
                        ContentBlock::Text { .. } => r.emission matches Some(
                            Emission::BlockStart(p),
                        ) && p.block_index == block_offset + index && p.block_type is Text,
                        ContentBlock::ToolUse { id, name, .. } => r.emission matches Some(
                            Emission::BlockStart(p),
                        ) && p.block_index == block_offset + index && (
                        p.block_type matches ContentBlockType::ToolUse { tool_use_id, tool_name }
                            && tool_use_id@ == id@ && tool_name@ == name@),
                        ContentBlock::ToolResult { .. } => r.emission is None,
                    }
                },
                AnthropicEvent::ContentBlockDelta { index, delta } => delta_applied(
                    *old(self),
                    *final(self),
                    index,
                    delta,
                ) && match delta {
                    ContentDelta::TextDelta { text } => r.is_text && (r.emission matches Some(
                        Emission::Chunk(p),
                    ) && p.delta@ == text@ && p.block_index == block_offset + index),
                    _ => !r.is_text && r.emission is None,
                },
                AnthropicEvent::ContentBlockStop { index } => block_stopped(
                    *old(self),
                    *final(self),
                    index,
                ) && !r.is_text && r.emission is None,
                AnthropicEvent::MessageDelta { delta, usage } => {
                    &&& final(self).stop_reason == delta.stop_reason
                    &&& final(self).content_blocks == old(self).content_blocks
                    &&& final(self).current() == old(self).current()
                    &&& final(self).pending_json() == old(self).pending_json()
                    &&& final(self).usage.input_tokens == old(self).usage.input_tokens
                    &&& final(self).usage.output_tokens == match usage {
                        Some(u) => u.output_tokens,
                        None => old(self).usage.output_tokens,
                    }
                    &&& !r.is_text
                    &&& r.emission is None
                },
                AnthropicEvent::Error { error } => *final(self) == *old(self) && !r.is_text && (
                r.emission matches Some(Emission::Error(p)) && p.error@ == error.message@),
                _ => *final(self) == *old(self) && !r.is_text && r.emission is None,
            },
    {
        match event {
            AnthropicEvent::ContentBlockStart { index, content_block } => {
                let global = block_offset + index;
                let emission = match &content_block {
                    ContentBlock::Text { .. } => Some(
                        Emission::BlockStart(
                            ContentBlockStartPayload {
                                block_index: global,
                                block_type: ContentBlockType::Text,
                            },
                        ),
                    ),
                    ContentBlock::ToolUse { id, name, .. } => Some(
                        Emission::BlockStart(
                            ContentBlockStartPayload {
                                block_index: global,
                                block_type: ContentBlockType::ToolUse {
                                    tool_use_id: crate::text::copy_string(id.as_str()),
                                    tool_name: crate::text::copy_string(name.as_str()),
                                },
                            },
                        ),
                    ),
                    ContentBlock::ToolResult { .. } => None,
                };
                self.on_content_block_start(index, content_block);
                EventEffect { emission, is_text: false }
            },
            AnthropicEvent::ContentBlockDelta { index, delta } => {
                let effect = match &delta {
                    ContentDelta::TextDelta { text } => EventEffect {
                        emission: Some(
                            Emission::Chunk(
                                AgentChunkPayload {
                                    delta: crate::text::copy_string(text.as_str()),
                                    block_index: block_offset + index,
                                },
                            ),
                        ),
                        is_text: true,
                    },
                    _ => EventEffect { emission: None, is_text: false },
                };
                self.on_content_delta(index, delta);
                effect
            },
            AnthropicEvent::ContentBlockStop { index } => {
                self.on_content_block_stop(index);
                EventEffect { emission: None, is_text: false }
            },
            AnthropicEvent::MessageDelta { delta, usage } => {
                self.on_message_delta(delta);
                if let Some(u) = usage {
                    self.usage = TokenUsage {
                        input_tokens: self.usage.input_tokens,
                        output_tokens: u.output_tokens,
                    };
                }
                EventEffect { emission: None, is_text: false }
            },
            AnthropicEvent::Error { error } => EventEffect {
                emission: Some(Emission::Error(AgentErrorPayload { error: error.message })),
                is_text: false,
            },
            _ => EventEffect { emission: None, is_text: false },
        }
    }
}

/// A tool call of a response, numbered for the user interface.
#[derive(Debug, Clone)]
pub struct ToolCall {
    pub id: String,
    pub name: String,
    /// The call's input, as JSON text.
    pub input: String,
    pub block_index: u32,
}

/// The result of a tool call.
#[derive(Debug, Clone)]
pub struct ToolResult {
    pub id: String,
    pub name: String,
    pub output: String,
    pub is_error: bool,
}

/// The tool calls among blocks, in order, each numbered `block_offset` plus its
/// position among all the blocks.
pub open spec fn calls_of(blocks: Seq<BlockView>, block_offset: u32) -> Seq<
    (Seq<char>, Seq<char>, Seq<char>, int),
>
    decreases blocks.len(),
{
    if blocks.len() == 0 {
        seq![]
    } else {
        let before = calls_of(blocks.drop_last(), block_offset);
        match blocks.last() {
            BlockView::ToolUse(id, name, input) => before.push(
                (id, name, input, block_offset + blocks.len() - 1),
            ),
            _ => before,
        }
    }
}

/// The values of tool calls.
pub open spec fn calls_view(v: Seq<ToolCall>) -> Seq<(Seq<char>, Seq<char>, Seq<char>, int)> {
    v.map_values(|c: ToolCall| (c.id@, c.name@, c.input@, c.block_index as int))
}

/// The tool calls of a response's blocks.
pub fn tool_calls_of(blocks: &Vec<ContentBlock>, block_offset: u32) -> (r: Vec<ToolCall>)
    requires
        block_offset + blocks@.len() <= u32::MAX,
    ensures
        calls_view(r@) == calls_of(blocks_view(blocks@), block_offset),
{
    let ghost bv = blocks_view(blocks@);
    let mut out: Vec<ToolCall> = Vec::new();
    let mut i: usize = 0;
    while i < blocks.len()
        invariant
            i <= blocks@.len(),
            bv == blocks_view(blocks@),
            block_offset + blocks@.len() <= u32::MAX,
            calls_view(out@) == calls_of(bv.take(i as int), block_offset),
        decreases blocks@.len() - i,
    {
        assert(bv.take(i + 1).drop_last() =~= bv.take(i as int));
        match &blocks[i] {
            ContentBlock::ToolUse { id, name, input } => {
                let ghost before = out@;
                let c = ToolCall {
                    id: crate::text::copy_string(id.as_str()),
                    name: crate::text::copy_string(name.as_str()),
                    input: crate::text::copy_string(input.as_str()),
                    block_index: block_offset + i as u32,
                };
                out.push(c);
                assert(calls_view(out@) =~= calls_view(before).push(
                    (id@, name@, input@, block_offset + i),
                ));
            },
            _ => {},
        }
        i = i + 1;
    }
    assert(bv.take(blocks@.len() as int) =~= bv);
    out
}

/// The blocks that answer tool calls: one result block per result, in order,
/// marked as an error only when it is one.
pub fn tool_result_blocks(results: Vec<ToolResult>) -> (r: Vec<ContentBlock>)
    ensures
        blocks_view(r@) == results@.map_values(
            |t: ToolResult|
                BlockView::ToolResult(
                    t.id@,
                    t.output@,
                    if t.is_error {
                        Some(true)
                    } else {
                        None
                    },
                ),
        ),
{
    let ghost want = results@.map_values(
        |t: ToolResult|
            BlockView::ToolResult(
                t.id@,
                t.output@,
                if t.is_error {
                    Some(true)
                } else {
                    None
                },
            ),
    );
    let mut out: Vec<ContentBlock> = Vec::new();
    let mut i: usize = 0;
    while i < results.len()
        invariant
            i <= results@.len(),
            want == results@.map_values(
                |t: ToolResult|
                    BlockView::ToolResult(
                        t.id@,
                        t.output@,
                        if t.is_error {
                            Some(true)
                        } else {
                            None
                        },
                    ),
            ),
            blocks_view(out@) == want.take(i as int),
        decreases results@.len() - i,
    {
        let t = &results[i];
        let ghost before = out@;
        out.push(
            ContentBlock::ToolResult {
                tool_use_id: crate::text::copy_string(t.id.as_str()),
                content: crate::text::copy_string(t.output.as_str()),
                is_error: if t.is_error {
                    Some(true)
                } else {
                    None
                },
            },
        );
        assert(blocks_view(out@) =~= blocks_view(before).push(want[i as int]));
        assert(want.take(i + 1) =~= want.take(i as int).push(want[i as int]));
        i = i + 1;
    }
    assert(want.take(results@.len() as int) =~= want);
    out
}

/// The text of the text blocks, in order, joined without separator.
pub open spec fn text_of_blocks(blocks: Seq<BlockView>) -> Seq<char>
    decreases blocks.len(),
{
    if blocks.len() == 0 {
        seq![]
    } else {
        match blocks.last() {
            BlockView::Text(t) => text_of_blocks(blocks.drop_last()) + t,
            _ => text_of_blocks(blocks.drop_last()),
        }
    }
}

/// The tool calls among blocks, in order: id, name and input.
pub open spec fn uses_of(blocks: Seq<BlockView>) -> Seq<(Seq<char>, Seq<char>, Seq<char>)>
    decreases blocks.len(),
{
    if blocks.len() == 0 {
        seq![]
    } else {
        match blocks.last() {
            BlockView::ToolUse(id, name, input) => uses_of(blocks.drop_last()).push(
                (id, name, input),
            ),
            _ => uses_of(blocks.drop_last()),
        }
    }
}

/// The values of a sub-agent turn's tool calls.
pub open spec fn headless_calls_view(v: Seq<HeadlessToolCall>) -> Seq<
    (Seq<char>, Seq<char>, Seq<char>),
> {
    v.map_values(|c: HeadlessToolCall| (c.id@, c.name@, c.input@))
}

/// A copy of a block.
pub fn copy_block(b: &ContentBlock) -> (r: ContentBlock)
    ensures
        block_view(r) == block_view(*b),
{
    match b {
        ContentBlock::Text { text } => ContentBlock::Text { text: crate::text::copy_string(text.as_str()) },
        ContentBlock::ToolUse { id, name, input } => ContentBlock::ToolUse {
            id: crate::text::copy_string(id.as_str()),
            name: crate::text::copy_string(name.as_str()),
            input: crate::text::copy_string(input.as_str()),
        },
        ContentBlock::ToolResult { tool_use_id, content, is_error } => ContentBlock::ToolResult {
            tool_use_id: crate::text::copy_string(tool_use_id.as_str()),
            content: crate::text::copy_string(content.as_str()),
            is_error: *is_error,
        },
    }
}

impl StreamedResponse {
    /// The response as the assistant's turn of the conversation: all its blocks.
    pub fn assistant_turn(&self) -> (r: AnthropicMessage)
        ensures
            r.role@ == "assistant"@,
            r.content matches MessageContent::Blocks(v) && blocks_view(v@) == blocks_view(
                self.content_blocks@,
            ),
    {
        let ghost want = blocks_view(self.content_blocks@);
        let mut out: Vec<ContentBlock> = Vec::new();
        let mut i: usize = 0;
        while i < self.content_blocks.len()
            invariant
                i <= self.content_blocks@.len(),
                want == blocks_view(self.content_blocks@),
                blocks_view(out@) == want.take(i as int),
            decreases self.content_blocks@.len() - i,
        {
            let ghost before = out@;
            out.push(copy_block(&self.content_blocks[i]));
            assert(blocks_view(out@) =~= blocks_view(before).push(want[i as int]));
            assert(want.take(i + 1) =~= want.take(i as int).push(want[i as int]));
            i = i + 1;
        }
        assert(want.take(self.content_blocks@.len() as int) =~= want);
        AnthropicMessage { role: owned("assistant"), content: MessageContent::Blocks(out) }
    }

    /// The response as a sub-agent turn: the text of its text blocks, its tool calls,
    /// its usage and its stop reason.
    pub fn to_headless_response(&self) -> (r: HeadlessResponse)
        ensures
            r.text@ == text_of_blocks(blocks_view(self.content_blocks@)),
            headless_calls_view(r.tool_calls@) == uses_of(blocks_view(self.content_blocks@)),
            r.usage == self.usage,
            reason_view(r.stop_reason) == reason_view(self.stop_reason),
    {
        let ghost bv = blocks_view(self.content_blocks@);
        let mut text: Vec<char> = Vec::new();
        let mut calls: Vec<HeadlessToolCall> = Vec::new();
        let mut i: usize = 0;
        while i < self.content_blocks.len()
            invariant
                i <= self.content_blocks@.len(),
                bv == blocks_view(self.content_blocks@),
                text@ == text_of_blocks(bv.take(i as int)),
                headless_calls_view(calls@) == uses_of(bv.take(i as int)),
            decreases self.content_blocks@.len() - i,
        {
            assert(bv.take(i + 1).drop_last() =~= bv.take(i as int));
            match &self.content_blocks[i] {
                ContentBlock::Text { text: t } => {
                    push_str(&mut text, t.as_str());
                },
                ContentBlock::ToolUse { id, name, input } => {
                    let ghost before = calls@;
                    calls.push(
                        HeadlessToolCall {
                            id: crate::text::copy_string(id.as_str()),
                            name: crate::text::copy_string(name.as_str()),
                            input: crate::text::copy_string(input.as_str()),
                        },
                    );
                    assert(headless_calls_view(calls@) =~= headless_calls_view(before).push(
                        (id@, name@, input@),
                    ));
                },
                _ => {},
            }
            i = i + 1;
        }
        assert(bv.take(self.content_blocks@.len() as int) =~= bv);
        HeadlessResponse {
            text: string_of(text.as_slice()),
            tool_calls: calls,
            usage: self.usage,
            stop_reason: copy_reason(&self.stop_reason),
        }
    }
}

/// The blocks of a sub-agent turn: its text, when there is any, then its tool calls.
pub open spec fn headless_turn_blocks(
    text: Seq<char>,
    calls: Seq<(Seq<char>, Seq<char>, Seq<char>)>,
) -> Seq<BlockView> {
    (if text.len() > 0 {
        seq![BlockView::Text(text)]
    } else {
        seq![]
    }) + calls.map_values(|c: (Seq<char>, Seq<char>, Seq<char>)| BlockView::ToolUse(c.0, c.1, c.2))
}

/// Adds a sub-agent turn to the conversation as the assistant's message.
pub fn append_assistant_response(
    conversation: &mut Vec<AnthropicMessage>,
    response: &HeadlessResponse,
)
    ensures
        final(conversation)@.len() == old(conversation)@.len() + 1,
        final(conversation)@.take(old(conversation)@.len() as int) == old(conversation)@,
        ({
            let m = final(conversation)@.last();
            &&& m.role@ == "assistant"@
            &&& m.content matches MessageContent::Blocks(v) && blocks_view(v@)
                == headless_turn_blocks(response.text@, headless_calls_view(response.tool_calls@))
        }),
{
    let ghost calls = headless_calls_view(response.tool_calls@);
    let ghost want = headless_turn_blocks(response.text@, calls);
    let mut blocks: Vec<ContentBlock> = Vec::new();
    let ghost head: Seq<BlockView> = if response.text@.len() > 0 {
        seq![BlockView::Text(response.text@)]
    } else {
        seq![]
    };
    if response.text.as_str().unicode_len() > 0 {
        blocks.push(ContentBlock::Text { text: crate::text::copy_string(response.text.as_str()) });
    }
    assert(blocks_view(blocks@) =~= head);
    let mut i: usize = 0;
    while i < response.tool_calls.len()
        invariant
            i <= response.tool_calls@.len(),
            calls == headless_calls_view(response.tool_calls@),
            blocks_view(blocks@) == head + calls.take(i as int).map_values(
                |c: (Seq<char>, Seq<char>, Seq<char>)| BlockView::ToolUse(c.0, c.1, c.2),
            ),
        decreases response.tool_calls@.len() - i,
    {
        let tc = &response.tool_calls[i];
        let ghost before = blocks@;
        blocks.push(
            ContentBlock::ToolUse {
                id: crate::text::copy_string(tc.id.as_str()),
                name: crate::text::copy_string(tc.name.as_str()),
                input: crate::text::copy_string(tc.input.as_str()),
            },
        );
        assert(blocks_view(blocks@) =~= blocks_view(before).push(
            BlockView::ToolUse(tc.id@, tc.name@, tc.input@),
        ));
        assert(calls[i as int] == (tc.id@, tc.name@, tc.input@));
        assert(calls.take(i + 1).map_values(
            |c: (Seq<char>, Seq<char>, Seq<char>)| BlockView::ToolUse(c.0, c.1, c.2),
        ) =~= calls.take(i as int).map_values(
            |c: (Seq<char>, Seq<char>, Seq<char>)| BlockView::ToolUse(c.0, c.1, c.2),
        ).push(BlockView::ToolUse(tc.id@, tc.name@, tc.input@)));
        i = i + 1;
    }
    assert(calls.take(response.tool_calls@.len() as int) =~= calls);
    conversation.push(AnthropicMessage { role: owned("assistant"), content: MessageContent::Blocks(blocks) });
}

/// The user's message that answers tool calls with their results.
pub fn tool_results_message(results: Vec<ToolResult>) -> (r: AnthropicMessage)
    ensures
        r.role@ == "user"@,
        r.content matches MessageContent::Blocks(v) && blocks_view(v@) == results@.map_values(
            |t: ToolResult|
                BlockView::ToolResult(
                    t.id@,
                    t.output@,
                    if t.is_error {
                        Some(true)
                    } else {
                        None
                    },
                ),
        ),
{
    AnthropicMessage { role: owned("user"), content: MessageContent::Blocks(tool_result_blocks(results)) }
}

/// Adds the results of a sub-agent's tool calls to the conversation, as the user's
/// message.
pub fn append_tool_results(conversation: &mut Vec<AnthropicMessage>, results: Vec<HeadlessToolResult>)
    ensures
        final(conversation)@.len() == old(conversation)@.len() + 1,
        final(conversation)@.take(old(conversation)@.len() as int) == old(conversation)@,
        ({
            let m = final(conversation)@.last();
            &&& m.role@ == "user"@
            &&& m.content matches MessageContent::Blocks(v) && blocks_view(v@)
                == results@.map_values(
                |t: HeadlessToolResult|
                    BlockView::ToolResult(
                        t.id@,
                        t.output@,
                        if t.is_error {
                            Some(true)
                        } else {
                            None
                        },
                    ),
            )
        }),
{
    let mut converted: Vec<ToolResult> = Vec::new();
    let mut i: usize = 0;
    while i < results.len()
        invariant
            i <= results@.len(),
            converted@.len() == i,
            forall|j: int|
                0 <= j < i ==> (#[trigger] converted@[j]).id@ == results@[j].id@
                    && converted@[j].output@ == results@[j].output@ && converted@[j].is_error
                    == results@[j].is_error,
        decreases results@.len() - i,
    {
        let t = &results[i];
        converted.push(
            ToolResult {
                id: crate::text::copy_string(t.id.as_str()),
                name: crate::text::copy_string(t.name.as_str()),
                output: crate::text::copy_string(t.output.as_str()),
                is_error: t.is_error,
            },
        );
        i = i + 1;
    }
    let m = tool_results_message(converted);
    proof {
        let a = converted@.map_values(
            |t: ToolResult|
                BlockView::ToolResult(
                    t.id@,
                    t.output@,
                    if t.is_error {
                        Some(true)
                    } else {
                        None
                    },
                ),
        );
        let b = results@.map_values(
            |t: HeadlessToolResult|
                BlockView::ToolResult(
                    t.id@,
                    t.output@,
                    if t.is_error {
                        Some(true)
                    } else {
                        None
                    },
                ),
        );
        assert(a =~= b);
    }
    conversation.push(m);
}

} // verus!
