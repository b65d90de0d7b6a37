use devflow::agent::anthropic::{Emission, ToolResult};
use devflow::agent::gemini::{
    api_url, append_assistant_response, append_tool_results, build_tools, content_from_message,
    extraction_request, extraction_url, first_candidate_text, function_responses,
    stream_request, take_gemini_events, Candidate, CandidateContent, FunctionCall, GeminiContent,
    GeminiError, GeminiPart, GeminiResponse, ResponsePart, StreamedResponse, UsageMetadata,
};
use devflow::agent::headless::{HeadlessResponse, ToolCall as HeadlessToolCall, ToolResult as HeadlessToolResult};
use devflow::agent::tools::definitions::get_tool_definitions;
use devflow::agent::types::{ChatContentBlock, ChatMessage, ContentBlockType, MessageRole};
use devflow::agent::usage::TokenUsage;

fn chunk(parts: Vec<ResponsePart>, finish: Option<&str>) -> GeminiResponse {
    GeminiResponse {
        candidates: Some(vec![Candidate {
            content: Some(CandidateContent {
                role: Some("model".to_string()),
                parts: Some(parts),
            }),
            finish_reason: finish.map(|s| s.to_string()),
        }]),
        error: None,
        usage_metadata: Some(UsageMetadata {
            prompt_token_count: 11,
            candidates_token_count: 7,
        }),
    }
}

#[test]
fn text_then_call_opens_blocks_in_order() {
    let mut streamed = StreamedResponse::new();
    let (emissions, is_text) = streamed.apply_response(
        chunk(
            vec![
                ResponsePart::Text { text: "Hel".to_string() },
                ResponsePart::Text { text: "lo".to_string() },
            ],
            None,
        ),
        10,
    );
    assert!(is_text);
    assert_eq!(emissions.len(), 3);
    match &emissions[0] {
        Emission::BlockStart(p) => {
            assert_eq!(p.block_index, 10);
            assert!(matches!(p.block_type, ContentBlockType::Text));
        }
        _ => panic!("expected the text block to open"),
    }
    match &emissions[2] {
        Emission::Chunk(p) => {
            assert_eq!(p.delta, "lo");
            assert_eq!(p.block_index, 10);
        }
        _ => panic!("expected a chunk"),
    }
    let (emissions, is_text) = streamed.apply_response(
        chunk(
            vec![ResponsePart::FunctionCall {
                function_call: FunctionCall {
                    name: "glob".to_string(),
                    args: "{\"pattern\":\"*.rs\"}".to_string(),
                },
            }],
            Some("STOP"),
        ),
        10,
    );
    assert!(!is_text);
    match &emissions[0] {
        Emission::BlockStart(p) => {
            assert_eq!(p.block_index, 11);
            match &p.block_type {
                ContentBlockType::ToolUse { tool_name, tool_use_id } => {
                    assert_eq!(tool_name, "glob");
                    assert!(!tool_use_id.is_empty());
                }
                _ => panic!("expected a tool block"),
            }
        }
        _ => panic!("expected a block start"),
    }
    assert_eq!(streamed.text_content, "Hello");
    assert_eq!(streamed.finish_reason, Some("STOP".to_string()));
    assert!(streamed.has_function_calls());
    assert_eq!(streamed.block_count(), 2);
    assert_eq!(streamed.usage.input_tokens, 11);
    assert_eq!(streamed.usage.output_tokens, 7);

    let calls = streamed.tool_calls(10);
    assert_eq!(calls.len(), 1);
    assert_eq!(calls[0].name, "glob");
    assert_eq!(calls[0].block_index, 11);

    let turn = streamed.model_turn();
    assert_eq!(turn.role, "model");
    assert_eq!(turn.parts.len(), 1);
}

#[test]
fn error_chunk_is_only_reported() {
    let mut streamed = StreamedResponse::new();
    let response = GeminiResponse {
        candidates: None,
        error: Some(GeminiError {
            message: "quota".to_string(),
            code: Some(429),
        }),
        usage_metadata: Some(UsageMetadata {
            prompt_token_count: 5,
            candidates_token_count: 5,
        }),
    };
    let (emissions, is_text) = streamed.apply_response(response, 0);
    assert!(!is_text);
    assert_eq!(emissions.len(), 1);
    assert!(matches!(&emissions[0], Emission::Error(p) if p.error == "quota"));
    assert_eq!(streamed.usage.input_tokens, 0);
}

#[test]
fn quiet_absorption_builds_headless_turn() {
    let mut streamed = StreamedResponse::new();
    streamed.absorb_response_quietly(chunk(
        vec![
            ResponsePart::Text { text: "Sure".to_string() },
            ResponsePart::Unknown,
            ResponsePart::FunctionCall {
                function_call: FunctionCall {
                    name: "read_file".to_string(),
                    args: "{}".to_string(),
                },
            },
        ],
        None,
    ));
    let turn = streamed.to_headless_response();
    assert_eq!(turn.text, "Sure");
    assert_eq!(turn.tool_calls.len(), 1);
    assert_eq!(turn.tool_calls[0].id, "read_file");
    assert_eq!(turn.tool_calls[0].name, "read_file");
    assert_eq!(turn.usage.output_tokens, 7);
}

#[test]
fn stream_buffer_prefers_crlf_delimiters() {
    let (events, rest) = take_gemini_events("data: 1\r\n\r\ndata: 2\n\ntail");
    assert_eq!(events, vec!["data: 1".to_string(), "data: 2".to_string()]);
    assert_eq!(rest, "tail");
}

#[test]
fn chat_messages_become_contents() {
    let msg = ChatMessage {
        id: "x".to_string(),
        role: MessageRole::Assistant,
        content_blocks: vec![
            ChatContentBlock::Text { text: "a".to_string() },
            ChatContentBlock::Text { text: "b".to_string() },
        ],
    };
    let c = content_from_message(&msg);
    assert_eq!(c.role, "model");
    assert!(matches!(&c.parts[0], GeminiPart::Text { text } if text == "ab"));
}

#[test]
fn requests_and_urls() {
    assert_eq!(
        api_url("gemini-2.0-flash", "KEY"),
        "https://generativelanguage.googleapis.com/v1beta/models/gemini-2.0-flash:streamGenerateContent?alt=sse&key=KEY"
    );
    assert_eq!(
        extraction_url("m", "k"),
        "https://generativelanguage.googleapis.com/v1beta/models/m:generateContent?key=k"
    );
    let tools = build_tools(&get_tool_definitions());
    assert_eq!(tools.len(), 1);
    assert_eq!(tools[0].function_declarations.len(), get_tool_definitions().len());

    let req = stream_request(Vec::new(), Some("sys".to_string()), tools, 4096);
    assert!(req.system_instruction.is_some());
    assert_eq!(req.generation_config.unwrap().max_output_tokens, Some(4096));

    let req = extraction_request("prompt".to_string());
    assert!(req.tools.is_none());
    assert_eq!(req.generation_config.unwrap().max_output_tokens, Some(2048));
    assert_eq!(req.contents[0].role, "user");
}

#[test]
fn extraction_answer_text() {
    let r = chunk(vec![ResponsePart::Text { text: "{}".to_string() }], None);
    assert_eq!(first_candidate_text(&r), "{}");
    let r = chunk(vec![ResponsePart::Unknown], None);
    assert_eq!(first_candidate_text(&r), "");
    let empty = GeminiResponse {
        candidates: None,
        error: None,
        usage_metadata: None,
    };
    assert_eq!(first_candidate_text(&empty), "");
}

#[test]
fn tool_results_become_function_responses() {
    let content = function_responses(&vec![
        ToolResult {
            id: "1".to_string(),
            name: "bash".to_string(),
            output: "ok".to_string(),
            is_error: false,
        },
        ToolResult {
            id: "2".to_string(),
            name: "grep".to_string(),
            output: "failed".to_string(),
            is_error: true,
        },
    ]);
    assert_eq!(content.role, "user");
    match (&content.parts[0], &content.parts[1]) {
        (
            GeminiPart::FunctionResponse { function_response: a },
            GeminiPart::FunctionResponse { function_response: b },
        ) => {
            assert_eq!(a.response.result, Some("ok".to_string()));
            assert_eq!(a.response.error, None);
            assert_eq!(b.response.result, None);
            assert_eq!(b.response.error, Some("failed".to_string()));
        }
        _ => panic!("expected function responses"),
    }

    let mut conversation: Vec<GeminiContent> = Vec::new();
    append_assistant_response(
        &mut conversation,
        &HeadlessResponse {
            text: "t".to_string(),
            tool_calls: vec![HeadlessToolCall {
                id: "g".to_string(),
                name: "glob".to_string(),
                input: "{}".to_string(),
            }],
            usage: TokenUsage::default(),
            stop_reason: None,
        },
    );
    append_tool_results(
        &mut conversation,
        vec![HeadlessToolResult {
            id: "g".to_string(),
            name: "glob".to_string(),
            output: "x".to_string(),
            is_error: false,
        }],
    );
    assert_eq!(conversation.len(), 2);
    assert_eq!(conversation[0].role, "model");
    assert_eq!(conversation[0].parts.len(), 2);
    assert_eq!(conversation[1].role, "user");
}
