//! Conversation and event types of the agent.
use vstd::prelude::*;

use crate::bindings::{is_hyphenated_uuid, new_uuid_string};
use crate::text::{chars_of, push_all, push_str, string_of};

verus! {

broadcast use vstd::string::group_string_axioms;

/// Tool definition sent to the model: name, description and the JSON schema
/// of its input (as JSON text).
#[derive(Debug, Clone)]
pub struct ToolDefinition {
    pub name: String,
    pub description: String,
    pub input_schema: String,
}

/// Ordered content block within a message (text or tool use).
#[derive(Debug, Clone)]
pub enum ChatContentBlock {
    Text { text: String },
    ToolUse {
        tool_use_id: String,
        tool_name: String,
        /// The tool's input, as compact JSON text.
        tool_input: String,
        output: Option<String>,
        is_error: Option<bool>,
    },
}

/// One message of a conversation.
#[derive(Debug, Clone)]
pub struct ChatMessage {
    pub id: String,
    pub role: MessageRole,
    pub content_blocks: Vec<ChatContentBlock>,
}

/// Who wrote a message.
#[derive(Debug, Clone, Copy, PartialEq, Eq, Structural)]
pub enum MessageRole {
    User,
    Assistant,
}

/// A piece of streamed text.
#[derive(Debug, Clone)]
pub struct AgentChunkPayload {
    pub delta: String,
    pub block_index: u32,
}

/// The end of a response.
#[derive(Debug, Clone)]
pub struct AgentCompletePayload {
    pub message_id: String,
    pub stop_reason: Option<String>,
}

/// An error reported to the user.
#[derive(Debug, Clone)]
pub struct AgentErrorPayload {
    pub error: String,
}

/// A tool started running.
#[derive(Debug, Clone)]
pub struct ToolStartPayload {
    pub tool_use_id: String,
    pub tool_name: String,
    /// The tool's input, as JSON text.
    pub tool_input: String,
    pub block_index: u32,
}

/// A tool finished.
#[derive(Debug, Clone)]
pub struct ToolEndPayload {
    pub tool_use_id: String,
    pub output: String,
    pub is_error: bool,
    pub block_index: u32,
}

/// A new content block started streaming.
#[derive(Debug, Clone)]
pub struct ContentBlockStartPayload {
    pub block_index: u32,
    pub block_type: ContentBlockType,
}

/// The kind of a streamed content block.
#[derive(Debug, Clone)]
pub enum ContentBlockType {
    Text,
    ToolUse { tool_use_id: String, tool_name: String },
}

/// The agent's status, with its display text.
#[derive(Debug, Clone)]
pub struct AgentStatusPayload {
    pub status: AgentStatus,
    pub status_text: String,
    pub detail: Option<String>,
}

/// What the agent is doing.
#[derive(Debug, Clone, Copy, PartialEq, Eq, Structural)]
pub enum AgentStatus {
    Idle,
    Sending,
    Thinking,
    Streaming,
    ToolRunning,
    ToolWaiting,
    Cancelled,
    Error,
}

/// A run was cancelled.
#[derive(Debug, Clone)]
pub struct AgentCancelledPayload {
    pub reason: String,
}

/// A plan awaits approval.
#[derive(Debug, Clone)]
pub struct PlanReadyPayload {
    pub plan: String,
}

/// The kind of a remembered fact.
#[derive(Debug, Clone, Copy, PartialEq, Eq, Structural)]
pub enum FactCategory {
    Decision,
    Preference,
    Context,
    Blocker,
}

/// A fact kept across compactions.
#[derive(Debug, Clone)]
pub struct CompactedFact {
    pub category: FactCategory,
    pub content: String,
}

/// What compaction keeps of the older part of a conversation.
#[derive(Debug, Clone)]
pub struct CompactedContext {
    pub summary: Option<String>,
    pub facts: Vec<CompactedFact>,
}

/// The display text of a status.
pub open spec fn status_text_spec(status: AgentStatus, detail: Option<Seq<char>>) -> Seq<char> {
    match status {
        AgentStatus::Idle => Seq::empty(),
        AgentStatus::Sending => "Sending..."@,
        AgentStatus::Thinking => "Thinking..."@,
        AgentStatus::Streaming => "Generating..."@,
        AgentStatus::ToolRunning => match detail {
            Some(name) => "Running "@ + name + "..."@,
            None => "Running tool..."@,
        },
        AgentStatus::ToolWaiting => "Waiting for response..."@,
        AgentStatus::Cancelled => "Cancelled"@,
        AgentStatus::Error => "Error"@,
    }
}

/// The value of an optional string.
pub open spec fn opt_view(o: Option<String>) -> Option<Seq<char>> {
    match o {
        Some(s) => Some(s@),
        None => None,
    }
}

/// The concatenated text of the text blocks.
pub open spec fn text_of_blocks(bs: Seq<ChatContentBlock>) -> Seq<char>
    decreases bs.len(),
{
    if bs.len() == 0 {
        Seq::empty()
    } else {
        text_of_blocks(bs.drop_last()) + match bs.last() {
            ChatContentBlock::Text { text } => text@,
            _ => Seq::empty(),
        }
    }
}

impl AgentStatus {
    /// The text shown for this status; a running tool is named when `detail` gives its name.
    pub fn display_text(&self, detail: &Option<String>) -> (r: String)
        ensures
            r@ == status_text_spec(*self, opt_view(*detail)),
    {
        let s: &str = match self {
            AgentStatus::Idle => "",
            AgentStatus::Sending => "Sending...",
            AgentStatus::Thinking => "Thinking...",
            AgentStatus::Streaming => "Generating...",
            AgentStatus::ToolRunning => {
                match detail {
                    Some(tool_name) => {
                        let mut v: Vec<char> = Vec::new();
                        push_str(&mut v, "Running ");
                        push_str(&mut v, tool_name.as_str());
                        push_str(&mut v, "...");
                        return string_of(v.as_slice());
                    },
                    None => "Running tool...",
                }
            },
            AgentStatus::ToolWaiting => "Waiting for response...",
            AgentStatus::Cancelled => "Cancelled",
            AgentStatus::Error => "Error",
        };
        proof {
            reveal_strlit("");
        }
        string_of(chars_of(s).as_slice())
    }
}

impl AgentStatusPayload {
    /// A status event with the status's display text.
    pub fn new(status: AgentStatus, detail: Option<String>) -> (r: Self)
        ensures
            r.status == status,
            r.status_text@ == status_text_spec(status, opt_view(detail)),
            opt_view(r.detail) == opt_view(detail),
    {
        let status_text = status.display_text(&detail);
        AgentStatusPayload { status, status_text, detail }
    }
}

impl ChatMessage {
    /// A message holding one text block, with a fresh random id.
    pub fn new(role: MessageRole, content: String) -> (r: Self)
        ensures
            is_hyphenated_uuid(r.id@),
            r.role == role,
            r.content_blocks@.len() == 1,
            r.content_blocks@[0] matches ChatContentBlock::Text { text } && text@ == content@,
    {
        let mut blocks: Vec<ChatContentBlock> = Vec::new();
        blocks.push(ChatContentBlock::Text { text: content });
        ChatMessage { id: new_uuid_string(), role, content_blocks: blocks }
    }

    /// A message holding the given blocks, with a fresh random id.
    pub fn with_blocks(role: MessageRole, blocks: Vec<ChatContentBlock>) -> (r: Self)
        ensures
            is_hyphenated_uuid(r.id@),
            r.role == role,
            r.content_blocks@ == blocks@,
    {
        ChatMessage { id: new_uuid_string(), role, content_blocks: blocks }
    }

    /// The text of all text blocks, concatenated in order.
    pub fn get_text(&self) -> (r: String)
        ensures
            r@ == text_of_blocks(self.content_blocks@),
    {
        let mut out: Vec<char> = Vec::new();
        let mut i: usize = 0;
        while i < self.content_blocks.len()
            invariant
                i <= self.content_blocks@.len(),
                out@ == text_of_blocks(self.content_blocks@.take(i as int)),
            decreases self.content_blocks@.len() - i,
        {
            match &self.content_blocks[i] {
                ChatContentBlock::Text { text } => push_str(&mut out, text.as_str()),
                _ => {},
            }
            proof {
                assert(self.content_blocks@.take(i + 1).drop_last() =~= self.content_blocks@.take(
                    i as int,
                ));
            }
            i = i + 1;
        }
        assert(self.content_blocks@.take(self.content_blocks@.len() as int)
            =~= self.content_blocks@);
        string_of(out.as_slice())
    }
}

} // verus!
