//! The Gemini adapter's own logic: requests and conversations in the API's shape,
//! the framing of its event stream, and how streamed answers build up a response.
use vstd::prelude::*;

use super::anthropic::{Emission, ToolCall, ToolResult};
use super::headless::{
    copy_reason, reason_view, HeadlessResponse, ToolCall as HeadlessToolCall,
    ToolResult as HeadlessToolResult,
};
use super::types::{
    text_of_blocks, AgentChunkPayload, AgentErrorPayload, ChatMessage, ContentBlockStartPayload,
    ContentBlockType, MessageRole, ToolDefinition,
};
use super::usage::TokenUsage;
use crate::bindings::{is_hyphenated_uuid, new_uuid_string};
use crate::text::{chars_of, copy_string, find_exec, owned, push_str, slice_chars, string_of};

verus! {

broadcast use vstd::string::group_string_axioms;

/// The address of the models.
pub const API_BASE_URL: &'static str = "https://generativelanguage.googleapis.com/v1beta/models";

/// What the extraction call tells the model it is.
pub const EXTRACTION_INSTRUCTION: &'static str =
    "You are a precise assistant that extracts and summarizes information. Always respond with valid JSON.";

/// The most tokens an extraction answer may use.
pub const EXTRACTION_MAX_TOKENS: u32 = 2048;

/// A call of a function (a tool) by the model; its arguments are JSON text.
#[derive(Debug, Clone)]
pub struct FunctionCall {
    pub name: String,
    pub args: String,
}

/// What a function gave back: a result or an error.
#[derive(Debug, Clone)]
pub struct FunctionResponseContent {
    pub result: Option<String>,
    pub error: Option<String>,
}

/// The answer to a function call.
#[derive(Debug, Clone)]
pub struct FunctionResponse {
    pub name: String,
    pub response: FunctionResponseContent,
}

/// A part of a message.
#[derive(Debug, Clone)]
pub enum GeminiPart {
    Text { text: String },
    FunctionCall { function_call: FunctionCall },
    FunctionResponse { function_response: FunctionResponse },
}

/// A message: its role (`user` or `model`) and its parts.
#[derive(Debug, Clone)]
pub struct GeminiContent {
    pub role: String,
    pub parts: Vec<GeminiPart>,
}

/// The system instruction of a request.
#[derive(Debug, Clone)]
pub struct GeminiSystemInstruction {
    pub parts: Vec<GeminiPart>,
}

/// A function the model may call; its parameters are a JSON schema as text.
#[derive(Debug, Clone)]
pub struct FunctionDeclaration {
    pub name: String,
    pub description: String,
    pub parameters: String,
}

/// The tools of a request.
#[derive(Debug, Clone)]
pub struct GeminiTool {
    pub function_declarations: Vec<FunctionDeclaration>,
}

/// Limits of the generation.
#[derive(Debug, Clone, Copy)]
pub struct GenerationConfig {
    pub max_output_tokens: Option<u32>,
}

/// A request.
#[derive(Debug, Clone)]
pub struct GeminiRequest {
    pub contents: Vec<GeminiContent>,
    pub system_instruction: Option<GeminiSystemInstruction>,
    pub tools: Option<Vec<GeminiTool>>,
    pub generation_config: Option<GenerationConfig>,
}

/// A part of an answer.
#[derive(Debug, Clone)]
pub enum ResponsePart {
    Text { text: String },
    FunctionCall { function_call: FunctionCall },
    /// A part of another kind.
    Unknown,
}

/// The content of a candidate answer.
#[derive(Debug, Clone)]
pub struct CandidateContent {
    pub role: Option<String>,
    pub parts: Option<Vec<ResponsePart>>,
}

/// A candidate answer.
#[derive(Debug, Clone)]
pub struct Candidate {
    pub content: Option<CandidateContent>,
    pub finish_reason: Option<String>,
}

/// An error the API reports.
#[derive(Debug, Clone)]
pub struct GeminiError {
    pub message: String,
    pub code: Option<i32>,
}

/// The tokens an answer reports.
#[derive(Debug, Clone, Copy)]
pub struct UsageMetadata {
    pub prompt_token_count: u32,
    pub candidates_token_count: u32,
}

/// An answer, or one chunk of a streamed answer.
#[derive(Debug, Clone)]
pub struct GeminiResponse {
    pub candidates: Option<Vec<Candidate>>,
    pub error: Option<GeminiError>,
    pub usage_metadata: Option<UsageMetadata>,
}

/// The value of a message part.
pub enum PartView {
    Text(Seq<char>),
    Call(Seq<char>, Seq<char>),
    Response(Seq<char>, Option<Seq<char>>, Option<Seq<char>>),
}

/// The value of an optional text.
pub open spec fn opt_text(o: Option<String>) -> Option<Seq<char>> {
    match o {
        Some(s) => Some(s@),
        None => None,
    }
}

/// The value of a message part.
pub open spec fn part_view(p: GeminiPart) -> PartView {
    match p {
        GeminiPart::Text { text } => PartView::Text(text@),
        GeminiPart::FunctionCall { function_call } => PartView::Call(
            function_call.name@,
            function_call.args@,
        ),
        GeminiPart::FunctionResponse { function_response } => PartView::Response(
            function_response.name@,
            opt_text(function_response.response.result),
            opt_text(function_response.response.error),
        ),
    }
}

/// The values of message parts.
pub open spec fn parts_view(v: Seq<GeminiPart>) -> Seq<PartView> {
    v.map_values(|p: GeminiPart| part_view(p))
}

/// The role of a chat message in the API.
pub open spec fn gemini_role(r: MessageRole) -> Seq<char> {
    match r {
        MessageRole::User => "user"@,
        MessageRole::Assistant => "model"@,
    }
}

/// A chat message in the API's shape: its role, and its text as one part.
pub fn content_from_message(msg: &ChatMessage) -> (r: GeminiContent)
    ensures
        r.role@ == gemini_role(msg.role),
        parts_view(r.parts@) == seq![PartView::Text(text_of_blocks(msg.content_blocks@))],
{
    let role = match msg.role {
        MessageRole::User => owned("user"),
        MessageRole::Assistant => owned("model"),
    };
    let mut parts: Vec<GeminiPart> = Vec::new();
    parts.push(GeminiPart::Text { text: msg.get_text() });
    assert(parts_view(parts@) =~= seq![PartView::Text(text_of_blocks(msg.content_blocks@))]);
    GeminiContent { role, parts }
}

/// Chat messages in the API's shape, in order.
pub fn contents_from_messages(messages: &[ChatMessage]) -> (r: Vec<GeminiContent>)
    ensures
        r@.len() == messages@.len(),
        forall|i: int|
            0 <= i < messages@.len() ==> (#[trigger] r@[i]).role@ == gemini_role(messages@[i].role)
                && parts_view(r@[i].parts@) == seq![
                PartView::Text(text_of_blocks(messages@[i].content_blocks@)),
            ],
{
    let mut out: Vec<GeminiContent> = Vec::new();
    let mut i: usize = 0;
    while i < messages.len()
        invariant
            i <= messages@.len(),
            out@.len() == i,
            forall|j: int|
                0 <= j < i ==> (#[trigger] out@[j]).role@ == gemini_role(messages@[j].role)
                    && parts_view(out@[j].parts@) == seq![
                    PartView::Text(text_of_blocks(messages@[j].content_blocks@)),
                ],
        decreases messages@.len() - i,
    {
        out.push(content_from_message(&messages[i]));
        i = i + 1;
    }
    out
}

/// A tool definition as a function the model may call.
pub fn declaration_of(tool: &ToolDefinition) -> (r: FunctionDeclaration)
    ensures
        r.name@ == tool.name@,
        r.description@ == tool.description@,
        r.parameters@ == tool.input_schema@,
{
    FunctionDeclaration {
        name: copy_string(tool.name.as_str()),
        description: copy_string(tool.description.as_str()),
        parameters: copy_string(tool.input_schema.as_str()),
    }
}

/// The tools of a request: one entry that declares every tool, in order.
pub fn build_tools(tools: &Vec<ToolDefinition>) -> (r: Vec<GeminiTool>)
    ensures
        r@.len() == 1,
        r@[0].function_declarations@.len() == tools@.len(),
        forall|i: int|
            0 <= i < tools@.len() ==> (#[trigger] r@[0].function_declarations@[i]).name@
                == tools@[i].name@ && r@[0].function_declarations@[i].description@
                == tools@[i].description@ && r@[0].function_declarations@[i].parameters@
                == tools@[i].input_schema@,
{
    let mut decls: Vec<FunctionDeclaration> = Vec::new();
    let mut i: usize = 0;
    while i < tools.len()
        invariant
            i <= tools@.len(),
            decls@.len() == i,
            forall|j: int|
                0 <= j < i ==> (#[trigger] decls@[j]).name@ == tools@[j].name@
                    && decls@[j].description@ == tools@[j].description@
                    && decls@[j].parameters@ == tools@[j].input_schema@,
        decreases tools@.len() - i,
    {
        decls.push(declaration_of(&tools[i]));
        i = i + 1;
    }
    let mut r: Vec<GeminiTool> = Vec::new();
    r.push(GeminiTool { function_declarations: decls });
    r
}

/// The address of the streaming call for a model.
pub open spec fn stream_url_spec(model: Seq<char>, api_key: Seq<char>) -> Seq<char> {
    API_BASE_URL@ + "/"@ + model + ":streamGenerateContent?alt=sse&key="@ + api_key
}

/// The address of the one-shot call for a model.
pub open spec fn extraction_url_spec(model: Seq<char>, api_key: Seq<char>) -> Seq<char> {
    API_BASE_URL@ + "/"@ + model + ":generateContent?key="@ + api_key
}

/// The address of the streaming call for a model.
pub fn api_url(model: &str, api_key: &str) -> (r: String)
    ensures
        r@ == stream_url_spec(model@, api_key@),
{
    let mut out = chars_of(API_BASE_URL);
    push_str(&mut out, "/");
    push_str(&mut out, model);
    push_str(&mut out, ":streamGenerateContent?alt=sse&key=");
    push_str(&mut out, api_key);
    string_of(out.as_slice())
}

/// The address of the one-shot call for a model.
pub fn extraction_url(model: &str, api_key: &str) -> (r: String)
    ensures
        r@ == extraction_url_spec(model@, api_key@),
{
    let mut out = chars_of(API_BASE_URL);
    push_str(&mut out, "/");
    push_str(&mut out, model);
    push_str(&mut out, ":generateContent?key=");
    push_str(&mut out, api_key);
    string_of(out.as_slice())
}

/// A streaming request: the conversation, the system prompt as the instruction when
/// there is one, the tools, and the token limit.
pub fn stream_request(
    contents: Vec<GeminiContent>,
    system: Option<String>,
    tools: Vec<GeminiTool>,
    max_tokens: u32,
) -> (r: GeminiRequest)
    ensures
        r.contents@ == contents@,
        match system {
            Some(s) => r.system_instruction matches Some(si) && parts_view(si.parts@) == seq![
                PartView::Text(s@),
            ],
            None => r.system_instruction is None,
        },
        r.tools == Some(tools),
        r.generation_config == Some(GenerationConfig { max_output_tokens: Some(max_tokens) }),
{
    let system_instruction = match system {
        Some(text) => {
            let mut parts: Vec<GeminiPart> = Vec::new();
            parts.push(GeminiPart::Text { text });
            assert(parts_view(parts@) =~= seq![PartView::Text(text@)]);
            Some(GeminiSystemInstruction { parts })
        },
        None => None,
    };
    GeminiRequest {
        contents,
        system_instruction,
        tools: Some(tools),
        generation_config: Some(GenerationConfig { max_output_tokens: Some(max_tokens) }),
    }
}

/// The extraction request: the prompt as the user's only message, the fixed
/// instruction, no tools, and at most 2048 tokens.
pub fn extraction_request(prompt: String) -> (r: GeminiRequest)
    ensures
        r.contents@.len() == 1,
        r.contents@[0].role@ == "user"@,
        parts_view(r.contents@[0].parts@) == seq![PartView::Text(prompt@)],
        r.system_instruction matches Some(si) && parts_view(si.parts@) == seq![
            PartView::Text(EXTRACTION_INSTRUCTION@),
        ],
        r.tools is None,
        r.generation_config == Some(
            GenerationConfig { max_output_tokens: Some(EXTRACTION_MAX_TOKENS) },
        ),
{
    let mut parts: Vec<GeminiPart> = Vec::new();
    parts.push(GeminiPart::Text { text: prompt });
    assert(parts_view(parts@) =~= seq![PartView::Text(prompt@)]);
    let mut contents: Vec<GeminiContent> = Vec::new();
    contents.push(GeminiContent { role: owned("user"), parts });
    let mut si: Vec<GeminiPart> = Vec::new();
    si.push(GeminiPart::Text { text: owned(EXTRACTION_INSTRUCTION) });
    assert(parts_view(si@) =~= seq![PartView::Text(EXTRACTION_INSTRUCTION@)]);
    GeminiRequest {
        contents,
        system_instruction: Some(GeminiSystemInstruction { parts: si }),
        tools: None,
        generation_config: Some(GenerationConfig { max_output_tokens: Some(EXTRACTION_MAX_TOKENS) }),
    }
}

/// The text of an answer: that of the first part of the first candidate when it is
/// text, else nothing.
pub open spec fn first_text_spec(r: GeminiResponse) -> Seq<char> {
    match r.candidates {
        Some(cs) => if cs@.len() > 0 {
            match cs@[0].content {
                Some(c) => match c.parts {
                    Some(ps) => if ps@.len() > 0 {
                        match ps@[0] {
                            ResponsePart::Text { text } => text@,
                            _ => seq![],
                        }
                    } else {
                        seq![]
                    },
                    None => seq![],
                },
                None => seq![],
            }
        } else {
            seq![]
        },
        None => seq![],
    }
}

/// The text of an extraction answer.
pub fn first_candidate_text(response: &GeminiResponse) -> (r: String)
    ensures
        r@ == first_text_spec(*response),
{
    match &response.candidates {
        Some(cs) => if cs.len() > 0 {
            match &cs[0].content {
                Some(c) => match &c.parts {
                    Some(ps) => if ps.len() > 0 {
                        match &ps[0] {
                            ResponsePart::Text { text } => copy_string(text.as_str()),
                            _ => String::new(),
                        }
                    } else {
                        String::new()
                    },
                    None => String::new(),
                },
                None => String::new(),
            }
        } else {
            String::new()
        },
        None => String::new(),
    }
}

/// The answer to tool calls: one function response per result, in order, carrying
/// the output as the result, or as the error when the call failed.
pub open spec fn response_part(name: Seq<char>, output: Seq<char>, is_error: bool) -> PartView {
    if is_error {
        PartView::Response(name, None, Some(output))
    } else {
        PartView::Response(name, Some(output), None)
    }
}

fn response_part_of(name: &str, output: &str, is_error: bool) -> (r: GeminiPart)
    ensures
        part_view(r) == response_part(name@, output@, is_error),
{
    let content = if is_error {
        FunctionResponseContent { result: None, error: Some(copy_string(output)) }
    } else {
        FunctionResponseContent { result: Some(copy_string(output)), error: None }
    };
    GeminiPart::FunctionResponse {
        function_response: FunctionResponse { name: copy_string(name), response: content },
    }
}

/// The user's message that answers tool calls.
pub fn function_responses(results: &Vec<ToolResult>) -> (r: GeminiContent)
    ensures
        r.role@ == "user"@,
        parts_view(r.parts@) == results@.map_values(
            |t: ToolResult| response_part(t.name@, t.output@, t.is_error),
        ),
{
    let ghost want = results@.map_values(
        |t: ToolResult| response_part(t.name@, t.output@, t.is_error),
    );
    let mut parts: Vec<GeminiPart> = Vec::new();
    let mut i: usize = 0;
    while i < results.len()
        invariant
            i <= results@.len(),
            want == results@.map_values(
                |t: ToolResult| response_part(t.name@, t.output@, t.is_error),
            ),
            parts_view(parts@) == want.take(i as int),
        decreases results@.len() - i,
    {
        let t = &results[i];
        let ghost before = parts@;
        parts.push(response_part_of(t.name.as_str(), t.output.as_str(), t.is_error));
        assert(parts_view(parts@) =~= parts_view(before).push(want[i as int]));
        assert(want.take(i + 1) =~= want.take(i as int).push(want[i as int]));
        i = i + 1;
    }
    assert(want.take(results@.len() as int) =~= want);
    GeminiContent { role: owned("user"), parts }
}

/// Adds the results of a sub-agent's tool calls to the conversation, as the user's
/// message.
pub fn append_tool_results(conversation: &mut Vec<GeminiContent>, results: Vec<HeadlessToolResult>)
    ensures
        final(conversation)@.len() == old(conversation)@.len() + 1,
        final(conversation)@.take(old(conversation)@.len() as int) == old(conversation)@,
        final(conversation)@.last().role@ == "user"@,
        parts_view(final(conversation)@.last().parts@) == results@.map_values(
            |t: HeadlessToolResult| response_part(t.name@, t.output@, t.is_error),
        ),
{
    let ghost want = results@.map_values(
        |t: HeadlessToolResult| response_part(t.name@, t.output@, t.is_error),
    );
    let mut parts: Vec<GeminiPart> = Vec::new();
    let mut i: usize = 0;
    while i < results.len()
        invariant
            i <= results@.len(),
            want == results@.map_values(
                |t: HeadlessToolResult| response_part(t.name@, t.output@, t.is_error),
            ),
            parts_view(parts@) == want.take(i as int),
        decreases results@.len() - i,
    {
        let t = &results[i];
        let ghost before = parts@;
        parts.push(response_part_of(t.name.as_str(), t.output.as_str(), t.is_error));
        assert(parts_view(parts@) =~= parts_view(before).push(want[i as int]));
        assert(want.take(i + 1) =~= want.take(i as int).push(want[i as int]));
        i = i + 1;
    }
    assert(want.take(results@.len() as int) =~= want);
    conversation.push(GeminiContent { role: owned("user"), parts });
}

/// The parts of a sub-agent turn: its text, when there is any, then its tool calls.
pub open spec fn headless_turn_parts(response: HeadlessResponse) -> Seq<PartView> {
    (if response.text@.len() > 0 {
        seq![PartView::Text(response.text@)]
    } else {
        seq![]
    }) + response.tool_calls@.map_values(
        |c: HeadlessToolCall| PartView::Call(c.name@, c.input@),
    )
}

/// Adds a sub-agent turn to the conversation as the model's message.
pub fn append_assistant_response(conversation: &mut Vec<GeminiContent>, response: &HeadlessResponse)
    ensures
        final(conversation)@.len() == old(conversation)@.len() + 1,
        final(conversation)@.take(old(conversation)@.len() as int) == old(conversation)@,
        final(conversation)@.last().role@ == "model"@,
        parts_view(final(conversation)@.last().parts@) == headless_turn_parts(*response),
{
    let ghost calls = response.tool_calls@.map_values(
        |c: HeadlessToolCall| PartView::Call(c.name@, c.input@),
    );
    let ghost head: Seq<PartView> = if response.text@.len() > 0 {
        seq![PartView::Text(response.text@)]
    } else {
        seq![]
    };
    let mut parts: Vec<GeminiPart> = Vec::new();
    if response.text.as_str().unicode_len() > 0 {
        parts.push(GeminiPart::Text { text: copy_string(response.text.as_str()) });
    }
    assert(parts_view(parts@) =~= head);
    let mut i: usize = 0;
    while i < response.tool_calls.len()
        invariant
            i <= response.tool_calls@.len(),
            calls == response.tool_calls@.map_values(
                |c: HeadlessToolCall| PartView::Call(c.name@, c.input@),
            ),
            parts_view(parts@) == head + calls.take(i as int),
        decreases response.tool_calls@.len() - i,
    {
        let tc = &response.tool_calls[i];
        let ghost before = parts@;
        parts.push(
            GeminiPart::FunctionCall {
                function_call: FunctionCall {
                    name: copy_string(tc.name.as_str()),
                    args: copy_string(tc.input.as_str()),
                },
            },
        );
        assert(parts_view(parts@) =~= parts_view(before).push(calls[i as int]));
        assert(calls.take(i + 1) =~= calls.take(i as int).push(calls[i as int]));
        i = i + 1;
    }
    assert(calls.take(response.tool_calls@.len() as int) =~= calls);
    conversation.push(GeminiContent { role: owned("model"), parts });
}

/// Events complete in the buffer: an event ends at the first `\r\n\r\n` when there
/// is one, else at the first blank line; what follows the last event stays.
pub open spec fn gemini_split(buffer: Seq<char>) -> (Seq<Seq<char>>, Seq<char>)
    decreases buffer.len(),
{
    match crate::text::find_first(buffer, "\r\n\r\n"@) {
        Some(end) => if 0 <= end && end + 4 <= buffer.len() {
            let (rest_events, rest) = gemini_split(buffer.skip(end + 4));
            (seq![buffer.take(end)] + rest_events, rest)
        } else {
            (seq![], buffer)
        },
        None => match crate::text::find_first(buffer, "\n\n"@) {
            Some(end) => if 0 <= end && end + 2 <= buffer.len() {
                let (rest_events, rest) = gemini_split(buffer.skip(end + 2));
                (seq![buffer.take(end)] + rest_events, rest)
            } else {
                (seq![], buffer)
            },
            None => (seq![], buffer),
        },
    }
}

/// Takes the complete events out of a stream buffer.
pub fn take_gemini_events(buffer: &str) -> (r: (Vec<String>, String))
    ensures
        crate::text::strings_view(r.0@) == gemini_split(buffer@).0,
        r.1@ == gemini_split(buffer@).1,
{
    proof {
        reveal_strlit("\r\n\r\n");
        reveal_strlit("\n\n");
    }
    let crlf = chars_of("\r\n\r\n");
    let lf = chars_of("\n\n");
    let mut rest = chars_of(buffer);
    let mut events: Vec<String> = Vec::new();
    loop
        invariant
            crlf@ == "\r\n\r\n"@,
            lf@ == "\n\n"@,
            crlf@.len() == 4,
            lf@.len() == 2,
            crate::text::strings_view(events@) + gemini_split(rest@).0 == gemini_split(buffer@).0,
            gemini_split(rest@).1 == gemini_split(buffer@).1,
        decreases rest@.len(),
    {
        let found = match find_exec(rest.as_slice(), crlf.as_slice()) {
            Some(end) => {
                proof {
                    crate::text::lemma_find_first_some(rest@, crlf@);
                }
                Some((end, 4usize))
            },
            None => match find_exec(rest.as_slice(), lf.as_slice()) {
                Some(end) => {
                    proof {
                        crate::text::lemma_find_first_some(rest@, lf@);
                    }
                    Some((end, 2usize))
                },
                None => None,
            },
        };
        match found {
            Some((end, width)) => {
                let n = rest.len();
                assert(end + width <= n);
                let ev = slice_chars(rest.as_slice(), 0, end);
                let after = slice_chars(rest.as_slice(), end + width, n);
                assert(ev@ =~= rest@.take(end as int));
                assert(after@ =~= rest@.skip(end + width));
                let ghost before = events@;
                events.push(string_of(ev.as_slice()));
                assert(crate::text::strings_view(events@) =~= crate::text::strings_view(before).push(
                    ev@,
                ));
                assert(crate::text::strings_view(events@) + gemini_split(after@).0
                    =~= crate::text::strings_view(before) + gemini_split(rest@).0);
                rest = after;
            },
            None => {
                assert(crate::text::strings_view(events@) =~= crate::text::strings_view(events@)
                    + gemini_split(rest@).0);
                return (events, string_of(rest.as_slice()));
            },
        }
    }
}

/// The value of a streamed response: its text, its function calls (name and
/// arguments), its finish reason, whether a text block was opened, and its usage.
pub struct StreamView {
    pub text: Seq<char>,
    pub calls: Seq<(Seq<char>, Seq<char>)>,
    pub finish: Option<Seq<char>>,
    pub has_text: bool,
    pub usage: TokenUsage,
}

/// What the user interface is told, with tool call ids left out (they are fresh).
pub enum EmissionView {
    StartText(int),
    StartTool(int, Seq<char>),
    Chunk(int, Seq<char>),
    Error(Seq<char>),
}

/// The value of an emission.
pub open spec fn emission_view(e: Emission) -> EmissionView {
    match e {
        Emission::BlockStart(p) => match p.block_type {
            ContentBlockType::Text => EmissionView::StartText(p.block_index as int),
            ContentBlockType::ToolUse { tool_name, .. } => EmissionView::StartTool(
                p.block_index as int,
                tool_name@,
            ),
        },
        Emission::Chunk(p) => EmissionView::Chunk(p.block_index as int, p.delta@),
        Emission::Error(p) => EmissionView::Error(p.error@),
    }
}

/// The values of emissions.
pub open spec fn emissions_view(v: Seq<Emission>) -> Seq<EmissionView> {
    v.map_values(|e: Emission| emission_view(e))
}

/// Where the function calls' blocks start: after the text block, if there is one.
pub open spec fn text_offset(has_text: bool) -> int {
    if has_text {
        1
    } else {
        0
    }
}

/// The response after one part of an answer.
pub open spec fn absorb_part(s: StreamView, p: ResponsePart) -> StreamView {
    match p {
        ResponsePart::Text { text } => StreamView {
            text: s.text + text@,
            calls: s.calls,
            finish: s.finish,
            has_text: true,
            usage: s.usage,
        },
        ResponsePart::FunctionCall { function_call } => StreamView {
            text: s.text,
            calls: s.calls.push((function_call.name@, function_call.args@)),
            finish: s.finish,
            has_text: s.has_text,
            usage: s.usage,
        },
        ResponsePart::Unknown => s,
    }
}

/// What one part of an answer tells the user interface: text opens the text block
/// (once) and is sent as a chunk of it; a function call opens its own block.
pub open spec fn part_emissions(s: StreamView, p: ResponsePart, off: int) -> Seq<EmissionView> {
    match p {
        ResponsePart::Text { text } => (if s.has_text {
            seq![]
        } else {
            seq![EmissionView::StartText(off)]
        }).push(EmissionView::Chunk(off, text@)),
        ResponsePart::FunctionCall { function_call } => seq![
            EmissionView::StartTool(
                off + text_offset(s.has_text) + s.calls.len(),
                function_call.name@,
            ),
        ],
        ResponsePart::Unknown => seq![],
    }
}

/// The result of taking in parts of an answer.
pub struct Absorbed {
    pub state: StreamView,
    pub emissions: Seq<EmissionView>,
    pub saw_text: bool,
}

/// Takes in parts of an answer, in order.
pub open spec fn absorb_parts(s: StreamView, parts: Seq<ResponsePart>, off: int) -> Absorbed
    decreases parts.len(),
{
    if parts.len() == 0 {
        Absorbed { state: s, emissions: seq![], saw_text: false }
    } else {
        let a = absorb_parts(s, parts.drop_last(), off);
        let p = parts.last();
        Absorbed {
            state: absorb_part(a.state, p),
            emissions: a.emissions + part_emissions(a.state, p, off),
            saw_text: a.saw_text || p is Text,
        }
    }
}

/// The parts of a candidate.
pub open spec fn candidate_parts(c: Candidate) -> Seq<ResponsePart> {
    match c.content {
        Some(cc) => match cc.parts {
            Some(ps) => ps@,
            None => seq![],
        },
        None => seq![],
    }
}

/// The response after a candidate's finish reason, if it has one.
pub open spec fn with_finish(s: StreamView, c: Candidate) -> StreamView {
    match c.finish_reason {
        Some(r) => StreamView {
            text: s.text,
            calls: s.calls,
            finish: Some(r@),
            has_text: s.has_text,
            usage: s.usage,
        },
        None => s,
    }
}

/// Takes in candidates, in order: each one's finish reason, then its parts.
pub open spec fn absorb_candidates(s: StreamView, cs: Seq<Candidate>, off: int) -> Absorbed
    decreases cs.len(),
{
    if cs.len() == 0 {
        Absorbed { state: s, emissions: seq![], saw_text: false }
    } else {
        let a = absorb_candidates(s, cs.drop_last(), off);
        let b = absorb_parts(with_finish(a.state, cs.last()), candidate_parts(cs.last()), off);
        Absorbed {
            state: b.state,
            emissions: a.emissions + b.emissions,
            saw_text: a.saw_text || b.saw_text,
        }
    }
}

/// The response after an answer's usage, if it reports one.
pub open spec fn with_usage(s: StreamView, r: GeminiResponse) -> StreamView {
    match r.usage_metadata {
        Some(u) => StreamView {
            text: s.text,
            calls: s.calls,
            finish: s.finish,
            has_text: s.has_text,
            usage: TokenUsage {
                input_tokens: u.prompt_token_count,
                output_tokens: u.candidates_token_count,
            },
        },
        None => s,
    }
}

/// The candidates of an answer.
pub open spec fn response_candidates(r: GeminiResponse) -> Seq<Candidate> {
    match r.candidates {
        Some(v) => v@,
        None => seq![],
    }
}

/// Takes in a chunk of the stream: an error is only reported; else the usage, then
/// the candidates.
pub open spec fn absorb_response(s: StreamView, r: GeminiResponse, off: int) -> Absorbed {
    match r.error {
        Some(e) => Absorbed { state: s, emissions: seq![EmissionView::Error(e.message@)], saw_text: false },
        None => absorb_candidates(with_usage(s, r), response_candidates(r), off),
    }
}

/// The number of parts in candidates.
pub open spec fn parts_in(cs: Seq<Candidate>) -> nat
    decreases cs.len(),
{
    if cs.len() == 0 {
        0
    } else {
        parts_in(cs.drop_last()) + candidate_parts(cs.last()).len()
    }
}

/// Accumulates a streamed answer.
#[derive(Debug)]
pub struct StreamedResponse {
    pub text_content: String,
    pub function_calls: Vec<FunctionCall>,
    pub finish_reason: Option<String>,
    pub has_text_block: bool,
    pub usage: TokenUsage,
}

/// The values of function calls.
pub open spec fn calls_view(v: Seq<FunctionCall>) -> Seq<(Seq<char>, Seq<char>)> {
    v.map_values(|c: FunctionCall| (c.name@, c.args@))
}

impl View for StreamedResponse {
    type V = StreamView;

    open spec fn view(&self) -> StreamView {
        StreamView {
            text: self.text_content@,
            calls: calls_view(self.function_calls@),
            finish: opt_text(self.finish_reason),
            has_text: self.has_text_block,
            usage: self.usage,
        }
    }
}

fn copy_call(c: &FunctionCall) -> (r: FunctionCall)
    ensures
        r.name@ == c.name@,
        r.args@ == c.args@,
{
    FunctionCall { name: copy_string(c.name.as_str()), args: copy_string(c.args.as_str()) }
}

impl StreamedResponse {
    /// An empty response.
    pub fn new() -> (r: Self)
        ensures
            r@ == (StreamView {
                text: seq![],
                calls: seq![],
                finish: None,
                has_text: false,
                usage: TokenUsage { input_tokens: 0, output_tokens: 0 },
            }),
    {
        let r = StreamedResponse {
            text_content: String::new(),
            function_calls: Vec::new(),
            finish_reason: None,
            has_text_block: false,
            usage: TokenUsage { input_tokens: 0, output_tokens: 0 },
        };
        assert(r@.calls =~= Seq::<(Seq<char>, Seq<char>)>::empty());
        r
    }

    /// Appends text to the text block, opening it; gives the block's place, 0.
    pub fn append_text(&mut self, text: &str) -> (r: u32)
        ensures
            r == 0,
            final(self).function_calls@.len() == old(self).function_calls@.len(),
            final(self)@ == (StreamView { text: old(self)@.text + text@, has_text: true, ..old(self)@ }),
    {
        let mut t = chars_of(self.text_content.as_str());
        push_str(&mut t, text);
        self.text_content = string_of(t.as_slice());
        self.has_text_block = true;
        0
    }

    /// Adds a function call; gives its block's place, after the text block.
    pub fn add_function_call(&mut self, call: FunctionCall) -> (r: u32)
        requires
            old(self).function_calls@.len() + 1 <= u32::MAX,
        ensures
            r == text_offset(old(self)@.has_text) + old(self)@.calls.len(),
            final(self).function_calls@.len() == old(self).function_calls@.len() + 1,
            final(self)@ == absorb_part(old(self)@, ResponsePart::FunctionCall { function_call: call }),
    {
        let offset: u32 = if self.has_text_block {
            1
        } else {
            0
        };
        let index = offset + self.function_calls.len() as u32;
        let ghost before = self.function_calls@;
        self.function_calls.push(call);
        assert(calls_view(self.function_calls@) =~= calls_view(before).push((call.name@, call.args@)));
        index
    }

    /// Records why the answer finished.
    pub fn set_finish_reason(&mut self, reason: String)
        ensures
            final(self)@ == (StreamView { finish: Some(reason@), ..old(self)@ }),
            final(self).function_calls@.len() == old(self).function_calls@.len(),
    {
        self.finish_reason = Some(reason);
    }

    /// Records the tokens the answer reports.
    pub fn update_usage(&mut self, usage: &UsageMetadata)
        ensures
            final(self).function_calls@.len() == old(self).function_calls@.len(),
            final(self)@ == (StreamView {
                usage: TokenUsage {
                    input_tokens: usage.prompt_token_count,
                    output_tokens: usage.candidates_token_count,
                },
                ..old(self)@
            }),
    {
        self.usage = TokenUsage {
            input_tokens: usage.prompt_token_count,
            output_tokens: usage.candidates_token_count,
        };
    }

    /// Whether the answer calls a function.
    pub fn has_function_calls(&self) -> (r: bool)
        ensures
            r == (self@.calls.len() > 0),
    {
        self.function_calls.len() > 0
    }

    /// The number of blocks the answer opened: the text block, if any, and one per
    /// function call.
    pub fn block_count(&self) -> (r: u32)
        requires
            self.function_calls@.len() + 1 <= u32::MAX,
        ensures
            r == text_offset(self@.has_text) + self@.calls.len(),
    {
        let offset: u32 = if self.has_text_block {
            1
        } else {
            0
        };
        offset + self.function_calls.len() as u32
    }
}

/// Counting parts over more candidates counts no fewer.
pub proof fn lemma_parts_in_take(cs: Seq<Candidate>, i: int, j: int)
    requires
        0 <= i <= j <= cs.len(),
    ensures
        parts_in(cs.take(i)) <= parts_in(cs.take(j)),
    decreases j - i,
{
    if i < j {
        assert(cs.take(j).drop_last() =~= cs.take(j - 1));
        lemma_parts_in_take(cs, i, j - 1);
    }
}

/// Every tool block that emissions open carries a fresh id in UUID form.
pub open spec fn fresh_tool_ids(v: Seq<Emission>) -> bool {
    forall|i: int|
        0 <= i < v.len() ==> match #[trigger] v[i] {
            Emission::BlockStart(p) => match p.block_type {
                ContentBlockType::ToolUse { tool_use_id, .. } => is_hyphenated_uuid(tool_use_id@),
                _ => true,
            },
            _ => true,
        }
}

impl StreamedResponse {
    fn absorb_parts_exec(
        &mut self,
        parts: &Vec<ResponsePart>,
        block_offset: u32,
        emissions: &mut Vec<Emission>,
    ) -> (saw_text: bool)
        requires
            block_offset + 1 + old(self).function_calls@.len() + parts@.len() <= u32::MAX,
            fresh_tool_ids(old(emissions)@),
        ensures
            fresh_tool_ids(final(emissions)@),
            ({
                let a = absorb_parts(old(self)@, parts@, block_offset as int);
                &&& final(self)@ == a.state
                &&& emissions_view(final(emissions)@) == emissions_view(old(emissions)@)
                    + a.emissions
                &&& saw_text == a.saw_text
            }),
            final(self).function_calls@.len() <= old(self).function_calls@.len() + parts@.len(),
    {
        let ghost s0 = self@;
        let ghost n0 = self.function_calls@.len();
        let ghost e0 = emissions_view(emissions@);
        let ghost off = block_offset as int;
        let mut saw = false;
        let mut i: usize = 0;
        while i < parts.len()
            invariant
                i <= parts@.len(),
                block_offset + 1 + n0 + parts@.len() <= u32::MAX,
                off == block_offset as int,
                self@ == absorb_parts(s0, parts@.take(i as int), off).state,
                emissions_view(emissions@) == e0 + absorb_parts(s0, parts@.take(i as int), off).emissions,
                saw == absorb_parts(s0, parts@.take(i as int), off).saw_text,
                self.function_calls@.len() <= n0 + i,
                self@.calls.len() == self.function_calls@.len(),
                fresh_tool_ids(emissions@),
            decreases parts@.len() - i,
        {
            assert(parts@.take(i + 1).drop_last() =~= parts@.take(i as int));
            let ghost before = emissions@;
            let ghost st = self@;
            match &parts[i] {
                ResponsePart::Text { text } => {
                    if !self.has_text_block {
                        emissions.push(
                            Emission::BlockStart(
                                ContentBlockStartPayload {
                                    block_index: block_offset,
                                    block_type: ContentBlockType::Text,
                                },
                            ),
                        );
                    }
                    let local = self.append_text(text.as_str());
                    emissions.push(
                        Emission::Chunk(
                            AgentChunkPayload {
                                delta: copy_string(text.as_str()),
                                block_index: block_offset + local,
                            },
                        ),
                    );
                    assert(emissions_view(emissions@) =~= emissions_view(before) + part_emissions(
                        st,
                        parts@[i as int],
                        off,
                    ));
                    saw = true;
                },
                ResponsePart::FunctionCall { function_call } => {
                    let name = copy_string(function_call.name.as_str());
                    let local = self.add_function_call(copy_call(function_call));
                    emissions.push(
                        Emission::BlockStart(
                            ContentBlockStartPayload {
                                block_index: block_offset + local,
                                block_type: ContentBlockType::ToolUse {
                                    tool_use_id: new_uuid_string(),
                                    tool_name: name,
                                },
                            },
                        ),
                    );
                    assert(emissions_view(emissions@) =~= emissions_view(before) + part_emissions(
                        st,
                        parts@[i as int],
                        off,
                    ));
                },
                ResponsePart::Unknown => {
                    assert(emissions_view(emissions@) =~= emissions_view(before) + part_emissions(
                        st,
                        parts@[i as int],
                        off,
                    ));
                },
            }
            i = i + 1;
        }
        assert(parts@.take(parts@.len() as int) =~= parts@);
        saw
    }

    fn absorb_body(&mut self, response: &GeminiResponse, block_offset: u32, emissions: &mut Vec<Emission>) -> (saw_text: bool)
        requires
            block_offset + 1 + old(self).function_calls@.len() + parts_in(response_candidates(*response))
                <= u32::MAX,
            fresh_tool_ids(old(emissions)@),
        ensures
            fresh_tool_ids(final(emissions)@),
            ({
                let a = absorb_candidates(
                    with_usage(old(self)@, *response),
                    response_candidates(*response),
                    block_offset as int,
                );
                &&& final(self)@ == a.state
                &&& emissions_view(final(emissions)@) == emissions_view(old(emissions)@)
                    + a.emissions
                &&& saw_text == a.saw_text
            }),
    {
        if let Some(u) = &response.usage_metadata {
            self.update_usage(u);
        }
        let ghost s1 = self@;
        let ghost n0 = self.function_calls@.len();
        let ghost e0 = emissions_view(emissions@);
        let ghost off = block_offset as int;
        let ghost cs = response_candidates(*response);
        assert(s1 == with_usage(old(self)@, *response));
        let mut saw = false;
        match &response.candidates {
            Some(list) => {
                let mut i: usize = 0;
                while i < list.len()
                    invariant
                        i <= list@.len(),
                        cs == list@,
                        off == block_offset as int,
                        block_offset + 1 + n0 + parts_in(cs) <= u32::MAX,
                        self@ == absorb_candidates(s1, cs.take(i as int), off).state,
                        emissions_view(emissions@) == e0 + absorb_candidates(
                            s1,
                            cs.take(i as int),
                            off,
                        ).emissions,
                        saw == absorb_candidates(s1, cs.take(i as int), off).saw_text,
                        self.function_calls@.len() <= n0 + parts_in(cs.take(i as int)),
                        fresh_tool_ids(emissions@),
                    decreases list@.len() - i,
                {
                    assert(cs.take(i + 1).drop_last() =~= cs.take(i as int));
                    proof {
                        lemma_parts_in_take(cs, i + 1, cs.len() as int);
                        assert(cs.take(cs.len() as int) =~= cs);
                    }
                    let c = &list[i];
                    assert(parts_in(cs.take(i + 1)) == parts_in(cs.take(i as int)) + candidate_parts(
                        cs[i as int],
                    ).len());
                    if let Some(reason) = &c.finish_reason {
                        self.set_finish_reason(copy_string(reason.as_str()));
                    }
                    assert(self@ == with_finish(absorb_candidates(s1, cs.take(i as int), off).state, cs[i as int]));
                    let saw_here = match &c.content {
                        Some(cc) => match &cc.parts {
                            Some(ps) => self.absorb_parts_exec(ps, block_offset, emissions),
                            None => false,
                        },
                        None => false,
                    };
                    saw = saw || saw_here;
                    assert(emissions_view(emissions@) =~= e0 + absorb_candidates(
                        s1,
                        cs.take(i + 1),
                        off,
                    ).emissions);
                    i = i + 1;
                }
                assert(cs.take(list@.len() as int) =~= cs);
            },
            None => {
                assert(emissions_view(emissions@) =~= e0 + Seq::<EmissionView>::empty());
            },
        }
        saw
    }

    /// Takes in a chunk of the stream, its blocks numbered from `block_offset` on:
    /// gives what to tell the user interface, and whether the chunk carried text.
    pub fn apply_response(&mut self, response: GeminiResponse, block_offset: u32) -> (r: (
        Vec<Emission>,
        bool,
    ))
        requires
            block_offset + 1 + old(self).function_calls@.len() + parts_in(response_candidates(response))
                <= u32::MAX,
        ensures
            ({
                let a = absorb_response(old(self)@, response, block_offset as int);
                &&& final(self)@ == a.state
                &&& emissions_view(r.0@) == a.emissions
                &&& r.1 == a.saw_text
            }),
            fresh_tool_ids(r.0@),
    {
        let mut emissions: Vec<Emission> = Vec::new();
        if let Some(e) = &response.error {
            emissions.push(Emission::Error(AgentErrorPayload { error: copy_string(e.message.as_str()) }));
            assert(emissions_view(emissions@) =~= seq![EmissionView::Error(e.message@)]);
            return (emissions, false);
        }
        assert(emissions_view(emissions@) =~= Seq::<EmissionView>::empty());
        let saw = self.absorb_body(&response, block_offset, &mut emissions);
        assert(emissions_view(emissions@) =~= Seq::<EmissionView>::empty() + absorb_response(
            old(self)@,
            response,
            block_offset as int,
        ).emissions);
        (emissions, saw)
    }

    /// Takes in a chunk of a sub-agent's stream: its usage and candidates (an error
    /// in it is not looked at).
    pub fn absorb_response_quietly(&mut self, response: GeminiResponse)
        requires
            1 + old(self).function_calls@.len() + parts_in(response_candidates(response)) <= u32::MAX,
        ensures
            final(self)@ == absorb_candidates(
                with_usage(old(self)@, response),
                response_candidates(response),
                0,
            ).state,
    {
        let mut ignored: Vec<Emission> = Vec::new();
        let _ = self.absorb_body(&response, 0, &mut ignored);
    }

    /// The model's turn of the conversation: its function calls, in order.
    pub fn model_turn(&self) -> (r: GeminiContent)
        ensures
            r.role@ == "model"@,
            parts_view(r.parts@) == self@.calls.map_values(
                |c: (Seq<char>, Seq<char>)| PartView::Call(c.0, c.1),
            ),
    {
        let ghost want = self@.calls.map_values(
            |c: (Seq<char>, Seq<char>)| PartView::Call(c.0, c.1),
        );
        let mut parts: Vec<GeminiPart> = Vec::new();
        let mut i: usize = 0;
        while i < self.function_calls.len()
            invariant
                i <= self.function_calls@.len(),
                want == self@.calls.map_values(
                    |c: (Seq<char>, Seq<char>)| PartView::Call(c.0, c.1),
                ),
                parts_view(parts@) == want.take(i as int),
            decreases self.function_calls@.len() - i,
        {
            let ghost before = parts@;
            parts.push(GeminiPart::FunctionCall { function_call: copy_call(&self.function_calls[i]) });
            assert(parts_view(parts@) =~= parts_view(before).push(want[i as int]));
            assert(want.take(i + 1) =~= want.take(i as int).push(want[i as int]));
            i = i + 1;
        }
        assert(want.take(self.function_calls@.len() as int) =~= want);
        GeminiContent { role: owned("model"), parts }
    }

    /// The answer's function calls as tool calls, each with a fresh id, numbered for
    /// the user interface after `block_offset` and the text block.
    pub fn tool_calls(&self, block_offset: u32) -> (r: Vec<ToolCall>)
        requires
            block_offset + 1 + self.function_calls@.len() <= u32::MAX,
        ensures
            r@.len() == self@.calls.len(),
            forall|i: int|
                0 <= i < r@.len() ==> (#[trigger] r@[i]).name@ == self@.calls[i].0 && r@[i].input@
                    == self@.calls[i].1 && r@[i].block_index == block_offset + text_offset(
                    self@.has_text,
                ) + i && is_hyphenated_uuid(r@[i].id@),
    {
        let offset: u32 = if self.has_text_block {
            1
        } else {
            0
        };
        let mut out: Vec<ToolCall> = Vec::new();
        let mut i: usize = 0;
        while i < self.function_calls.len()
            invariant
                i <= self.function_calls@.len(),
                block_offset + 1 + self.function_calls@.len() <= u32::MAX,
                offset == text_offset(self@.has_text),
                out@.len() == i,
                forall|j: int|
                    0 <= j < i ==> (#[trigger] out@[j]).name@ == self@.calls[j].0 && out@[j].input@
                        == self@.calls[j].1 && out@[j].block_index == block_offset + offset + j
                        && is_hyphenated_uuid(out@[j].id@),
            decreases self.function_calls@.len() - i,
        {
            let fc = &self.function_calls[i];
            out.push(
                ToolCall {
                    id: new_uuid_string(),
                    name: copy_string(fc.name.as_str()),
                    input: copy_string(fc.args.as_str()),
                    block_index: block_offset + offset + i as u32,
                },
            );
            i = i + 1;
        }
        out
    }

    /// The answer as a sub-agent turn; each call's id is its name, and the finish
    /// reason is the turn's stop reason.
    pub fn to_headless_response(&self) -> (r: HeadlessResponse)
        ensures
            r.text@ == self@.text,
            r.usage == self.usage,
            reason_view(r.stop_reason) == self@.finish,
            r.tool_calls@.len() == self@.calls.len(),
            forall|i: int|
                0 <= i < r.tool_calls@.len() ==> (#[trigger] r.tool_calls@[i]).id@ == self@.calls[i].0
                    && r.tool_calls@[i].name@ == self@.calls[i].0 && r.tool_calls@[i].input@
                    == self@.calls[i].1,
    {
        let mut calls: Vec<HeadlessToolCall> = Vec::new();
        let mut i: usize = 0;
        while i < self.function_calls.len()
            invariant
                i <= self.function_calls@.len(),
                calls@.len() == i,
                forall|j: int|
                    0 <= j < i ==> (#[trigger] calls@[j]).id@ == self@.calls[j].0 && calls@[j].name@
                        == self@.calls[j].0 && calls@[j].input@ == self@.calls[j].1,
            decreases self.function_calls@.len() - i,
        {
            let fc = &self.function_calls[i];
            calls.push(
                HeadlessToolCall {
                    id: copy_string(fc.name.as_str()),
                    name: copy_string(fc.name.as_str()),
                    input: copy_string(fc.args.as_str()),
                },
            );
            i = i + 1;
        }
        HeadlessResponse {
            text: copy_string(self.text_content.as_str()),
            tool_calls: calls,
            usage: self.usage,
            stop_reason: copy_reason(&self.finish_reason),
        }
    }
}

} // verus!
