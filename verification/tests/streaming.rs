use devflow::agent::anthropic::{
    append_assistant_response, append_tool_results, event_payload, message_from_chat,
    take_sse_events, tool_calls_of, tool_result_blocks, AnthropicEvent, AnthropicMessage,
    ContentBlock, ContentDelta, Emission, MessageContent, MessageDeltaData, StreamedResponse,
    ToolResult, UsageData,
};
use devflow::agent::headless::{HeadlessResponse, ToolCall as HeadlessToolCall, ToolResult as HeadlessToolResult};
use devflow::agent::types::{ChatContentBlock, ChatMessage, MessageRole};
use devflow::agent::usage::TokenUsage;

#[test]
fn test_streamed_response_text_accumulation() {
    let mut response = StreamedResponse::new();

    response.on_content_block_start(
        0,
        ContentBlock::Text {
            text: String::new(),
        },
    );

    response.on_content_delta(
        0,
        ContentDelta::TextDelta {
            text: "Hello ".to_string(),
        },
    );
    response.on_content_delta(
        0,
        ContentDelta::TextDelta {
            text: "world!".to_string(),
        },
    );

    response.on_content_block_stop(0);

    assert!(!response.has_tool_use());
    assert_eq!(response.content_blocks.len(), 1);

    if let ContentBlock::Text { text } = &response.content_blocks[0] {
        assert_eq!(text, "Hello world!");
    } else {
        panic!("Expected Text block");
    }
}

#[test]
fn test_streamed_response_tool_use_accumulation() {
    let mut response = StreamedResponse::new();

    response.on_content_block_start(
        0,
        ContentBlock::ToolUse {
            id: "tool_123".to_string(),
            name: "bash".to_string(),
            input: "null".to_string(),
        },
    );

    response.on_content_delta(
        0,
        ContentDelta::InputJsonDelta {
            partial_json: r#"{"command":"#.to_string(),
        },
    );
    response.on_content_delta(
        0,
        ContentDelta::InputJsonDelta {
            partial_json: r#""ls -la"}"#.to_string(),
        },
    );

    response.on_content_block_stop(0);

    assert!(response.has_tool_use());
    assert_eq!(response.content_blocks.len(), 1);

    if let ContentBlock::ToolUse { id, name, input } = &response.content_blocks[0] {
        assert_eq!(id, "tool_123");
        assert_eq!(name, "bash");
        let input: serde_json::Value = serde_json::from_str(input).unwrap();
        assert_eq!(input["command"], "ls -la");
    } else {
        panic!("Expected ToolUse block");
    }
}

#[test]
fn test_streamed_response_mixed_content() {
    let mut response = StreamedResponse::new();

    response.on_content_block_start(
        0,
        ContentBlock::Text {
            text: String::new(),
        },
    );
    response.on_content_delta(
        0,
        ContentDelta::TextDelta {
            text: "Let me check.".to_string(),
        },
    );
    response.on_content_block_stop(0);

    response.on_content_block_start(
        1,
        ContentBlock::ToolUse {
            id: "tool_456".to_string(),
            name: "read_file".to_string(),
            input: "null".to_string(),
        },
    );
    response.on_content_delta(
        1,
        ContentDelta::InputJsonDelta {
            partial_json: r#"{"path":"src/main.rs"}"#.to_string(),
        },
    );
    response.on_content_block_stop(1);

    assert!(response.has_tool_use());
    assert_eq!(response.content_blocks.len(), 2);
}

#[test]
fn test_streamed_response_stop_reason() {
    let mut response = StreamedResponse::new();

    assert!(response.stop_reason.is_none());

    response.on_message_delta(MessageDeltaData {
        stop_reason: Some("end_turn".to_string()),
    });

    assert_eq!(response.stop_reason, Some("end_turn".to_string()));
}

#[test]
fn tool_input_without_deltas_stays_null() {
    let mut response = StreamedResponse::new();
    response.on_content_block_start(
        0,
        ContentBlock::ToolUse {
            id: "t".to_string(),
            name: "todo_read".to_string(),
            input: "{\"ignored\":1}".to_string(),
        },
    );
    response.on_content_block_stop(0);
    match &response.content_blocks[0] {
        ContentBlock::ToolUse { input, .. } => assert_eq!(input, "null"),
        _ => panic!("Expected ToolUse block"),
    }
}

#[test]
fn invalid_tool_json_is_dropped() {
    let mut response = StreamedResponse::new();
    response.on_content_block_start(
        0,
        ContentBlock::ToolUse {
            id: "t".to_string(),
            name: "bash".to_string(),
            input: "null".to_string(),
        },
    );
    response.on_content_delta(
        0,
        ContentDelta::InputJsonDelta {
            partial_json: "{\"command\":".to_string(),
        },
    );
    response.on_content_block_stop(0);
    match &response.content_blocks[0] {
        ContentBlock::ToolUse { input, .. } => assert_eq!(input, "null"),
        _ => panic!("Expected ToolUse block"),
    }
}

#[test]
fn apply_event_reports_what_to_emit() {
    let mut response = StreamedResponse::new();
    let effect = response.apply_event(
        AnthropicEvent::ContentBlockStart {
            index: 0,
            content_block: ContentBlock::Text {
                text: String::new(),
            },
        },
        5,
    );
    match effect.emission {
        Some(Emission::BlockStart(p)) => assert_eq!(p.block_index, 5),
        _ => panic!("expected a block start"),
    }
    let effect = response.apply_event(
        AnthropicEvent::ContentBlockDelta {
            index: 0,
            delta: ContentDelta::TextDelta {
                text: "hi".to_string(),
            },
        },
        5,
    );
    assert!(effect.is_text);
    match effect.emission {
        Some(Emission::Chunk(p)) => {
            assert_eq!(p.delta, "hi");
            assert_eq!(p.block_index, 5);
        }
        _ => panic!("expected a chunk"),
    }
    let effect = response.apply_event(
        AnthropicEvent::MessageDelta {
            delta: MessageDeltaData {
                stop_reason: Some("end_turn".to_string()),
            },
            usage: Some(UsageData { output_tokens: 42 }),
        },
        5,
    );
    assert!(effect.emission.is_none());
    assert_eq!(response.stop_reason, Some("end_turn".to_string()));
    assert_eq!(response.usage.output_tokens, 42);
    assert_eq!(response.block_count(), 1);
}

#[test]
fn sse_events_are_split_on_blank_lines() {
    let (events, rest) = take_sse_events("event: a\ndata: 1\n\nevent: b\ndata: 2\n\npartial");
    assert_eq!(events, vec!["event: a\ndata: 1".to_string(), "event: b\ndata: 2".to_string()]);
    assert_eq!(rest, "partial");
    assert_eq!(event_payload("event: a\ndata: {\"x\":1}"), Some("{\"x\":1}".to_string()));
    assert_eq!(event_payload("data: [DONE]"), None);
    assert_eq!(event_payload("event: ping"), None);
}

#[test]
fn chat_message_in_api_shape() {
    let single = ChatMessage {
        id: "1".to_string(),
        role: MessageRole::User,
        content_blocks: vec![ChatContentBlock::Text {
            text: "hello".to_string(),
        }],
    };
    let m = message_from_chat(&single);
    assert_eq!(m.role, "user");
    assert!(matches!(m.content, MessageContent::Text(ref t) if t == "hello"));

    let multi = ChatMessage {
        id: "2".to_string(),
        role: MessageRole::Assistant,
        content_blocks: vec![
            ChatContentBlock::Text {
                text: "a".to_string(),
            },
            ChatContentBlock::ToolUse {
                tool_use_id: "t1".to_string(),
                tool_name: "glob".to_string(),
                tool_input: "{}".to_string(),
                output: None,
                is_error: None,
            },
        ],
    };
    let m = message_from_chat(&multi);
    assert_eq!(m.role, "assistant");
    match m.content {
        MessageContent::Blocks(v) => assert_eq!(v.len(), 2),
        _ => panic!("expected blocks"),
    }
}

#[test]
fn tool_calls_are_numbered_by_block() {
    let blocks = vec![
        ContentBlock::Text {
            text: "x".to_string(),
        },
        ContentBlock::ToolUse {
            id: "a".to_string(),
            name: "glob".to_string(),
            input: "{}".to_string(),
        },
    ];
    let calls = tool_calls_of(&blocks, 3);
    assert_eq!(calls.len(), 1);
    assert_eq!(calls[0].id, "a");
    assert_eq!(calls[0].block_index, 4);

    let results = tool_result_blocks(vec![
        ToolResult {
            id: "a".to_string(),
            name: "glob".to_string(),
            output: "ok".to_string(),
            is_error: false,
        },
        ToolResult {
            id: "b".to_string(),
            name: "bash".to_string(),
            output: "bad".to_string(),
            is_error: true,
        },
    ]);
    match (&results[0], &results[1]) {
        (
            ContentBlock::ToolResult { is_error: e0, .. },
            ContentBlock::ToolResult { is_error: e1, content, .. },
        ) => {
            assert_eq!(*e0, None);
            assert_eq!(*e1, Some(true));
            assert_eq!(content, "bad");
        }
        _ => panic!("expected results"),
    }
}

#[test]
fn headless_turns_in_api_shape() {
    let mut response = StreamedResponse::new();
    response.on_content_block_start(0, ContentBlock::Text { text: "Hi ".to_string() });
    response.on_content_block_start(
        1,
        ContentBlock::ToolUse {
            id: "id1".to_string(),
            name: "glob".to_string(),
            input: "null".to_string(),
        },
    );
    let turn = response.to_headless_response();
    assert_eq!(turn.text, "Hi ");
    assert_eq!(turn.tool_calls.len(), 1);
    assert_eq!(turn.tool_calls[0].id, "id1");
    assert_eq!(turn.stop_reason, response.stop_reason);

    let mut conversation: Vec<AnthropicMessage> = Vec::new();
    let reply = HeadlessResponse {
        text: String::new(),
        tool_calls: vec![HeadlessToolCall {
            id: "c".to_string(),
            name: "bash".to_string(),
            input: "{}".to_string(),
        }],
        usage: TokenUsage::default(),
        stop_reason: Some("tool_use".to_string()),
    };
    append_assistant_response(&mut conversation, &reply);
    append_tool_results(
        &mut conversation,
        vec![HeadlessToolResult {
            id: "c".to_string(),
            name: "bash".to_string(),
            output: "done".to_string(),
            is_error: false,
        }],
    );
    assert_eq!(conversation.len(), 2);
    assert_eq!(conversation[0].role, "assistant");
    match &conversation[0].content {
        MessageContent::Blocks(v) => assert_eq!(v.len(), 1),
        _ => panic!("expected blocks"),
    }
    assert_eq!(conversation[1].role, "user");
    let turn_msg = response.assistant_turn();
    assert_eq!(turn_msg.role, "assistant");
}
