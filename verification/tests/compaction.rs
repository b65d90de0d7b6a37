use devflow::agent::compaction::{
    estimate_context_size, estimate_tokens, extract_json_from_response, extraction_input,
    extraction_to_compacted, finish_compaction, format_compacted_context, get_context_limit,
    merge_compacted_contexts, not_enough_messages_warning, plan_compaction, prepare_turn,
    should_compact, split_messages_for_compaction, CompactionPlan, CompactionResult,
    ExtractionFact, ExtractionResponse,
};
use devflow::agent::types::{
    ChatContentBlock, ChatMessage, CompactedContext, CompactedFact, FactCategory, MessageRole,
};

fn numbered_messages(n: usize) -> Vec<ChatMessage> {
    (0..n)
        .map(|i| ChatMessage {
            id: format!("msg-{}", i),
            role: if i % 2 == 0 {
                MessageRole::User
            } else {
                MessageRole::Assistant
            },
            content_blocks: vec![ChatContentBlock::Text {
                text: format!("Message {}", i),
            }],
        })
        .collect()
}

fn empty_context() -> CompactedContext {
    CompactedContext {
        summary: None,
        facts: vec![],
    }
}

#[test]
fn test_estimate_tokens() {
    assert_eq!(estimate_tokens(""), 0);
    assert_eq!(estimate_tokens("hello"), 1);
    assert_eq!(estimate_tokens("hello world"), 2);
    // 100 chars should be ~25 tokens
    let long_text = "a".repeat(100);
    assert_eq!(estimate_tokens(&long_text), 25);
}

#[test]
fn test_get_context_limit() {
    // With config override
    assert_eq!(get_context_limit(Some(100_000)), 100_000);

    // Default when not configured
    assert_eq!(get_context_limit(None), 200_000);
}

#[test]
fn test_should_compact() {
    // 80% of 200k = 160k
    assert!(!should_compact(100_000, 200_000));
    assert!(!should_compact(160_000, 200_000));
    assert!(should_compact(160_001, 200_000));
    assert!(should_compact(200_000, 200_000));
}

#[test]
fn test_split_messages_for_compaction() {
    let messages = numbered_messages(20);

    // Normal mode: preserve 6 exchanges = 12 messages
    let (compact, preserve) = split_messages_for_compaction(&messages, false);
    assert_eq!(compact.len(), 8);
    assert_eq!(preserve.len(), 12);

    // Aggressive mode: preserve 4 exchanges = 8 messages
    let (compact, preserve) = split_messages_for_compaction(&messages, true);
    assert_eq!(compact.len(), 12);
    assert_eq!(preserve.len(), 8);

    // Not enough messages to compact
    let small_messages = numbered_messages(10);

    let (compact, preserve) = split_messages_for_compaction(&small_messages, false);
    assert_eq!(compact.len(), 0);
    assert_eq!(preserve.len(), 10);
}

#[test]
fn test_extract_json_from_response() {
    // Raw JSON
    let raw = r#"{"summary": "test", "facts": []}"#;
    assert!(extract_json_from_response(raw).contains("summary"));

    // JSON in code block
    let with_block = r#"Here's the analysis:
```json
{"summary": "test", "facts": []}
```"#;
    assert!(extract_json_from_response(with_block).contains("summary"));

    // JSON in plain code block
    let plain_block = r#"```
{"summary": "test", "facts": []}
```"#;
    assert!(extract_json_from_response(plain_block).contains("summary"));
}

#[test]
fn test_extraction_to_compacted() {
    let response = ExtractionResponse {
        summary: "Test summary".to_string(),
        facts: vec![
            ExtractionFact {
                category: "decision".to_string(),
                content: "Use Rust".to_string(),
            },
            ExtractionFact {
                category: "invalid".to_string(),
                content: "Should be filtered".to_string(),
            },
        ],
    };

    let compacted = extraction_to_compacted(response);
    assert_eq!(compacted.summary, Some("Test summary".to_string()));
    assert_eq!(compacted.facts.len(), 1);
    assert_eq!(compacted.facts[0].category, FactCategory::Decision);
}

#[test]
fn test_format_compacted_context() {
    let context = CompactedContext {
        summary: Some("User is building a CLI tool".to_string()),
        facts: vec![
            CompactedFact {
                category: FactCategory::Decision,
                content: "Using Rust for the backend".to_string(),
            },
            CompactedFact {
                category: FactCategory::Preference,
                content: "Prefers minimal dependencies".to_string(),
            },
        ],
    };

    let formatted = format_compacted_context(&context);
    assert!(formatted.contains("[Session Context]"));
    assert!(formatted.contains("User is building a CLI tool"));
    assert!(formatted.contains("[DECISION]"));
    assert!(formatted.contains("[PREFERENCE]"));
    assert!(formatted.contains("[Recent Conversation Follows]"));
}

#[test]
fn test_merge_compacted_contexts() {
    let existing = CompactedContext {
        summary: Some("First part".to_string()),
        facts: vec![CompactedFact {
            category: FactCategory::Decision,
            content: "Fact 1".to_string(),
        }],
    };

    let new = CompactedContext {
        summary: Some("Second part".to_string()),
        facts: vec![
            CompactedFact {
                category: FactCategory::Decision,
                content: "Fact 1".to_string(), // Duplicate
            },
            CompactedFact {
                category: FactCategory::Context,
                content: "Fact 2".to_string(),
            },
        ],
    };

    let merged = merge_compacted_contexts(&existing, new);
    assert!(merged.summary.unwrap().contains("First part"));
    assert_eq!(merged.facts.len(), 2); // Duplicate removed
}

#[test]
fn format_compacted_context_exact_text() {
    let context = CompactedContext {
        summary: Some("S".to_string()),
        facts: vec![CompactedFact {
            category: FactCategory::Blocker,
            content: "B".to_string(),
        }],
    };
    assert_eq!(
        format_compacted_context(&context),
        "[Session Context]\nSummary: S\n\nKey Facts:\n- [BLOCKER] B\n\n[Recent Conversation Follows]"
    );
    assert_eq!(
        format_compacted_context(&empty_context()),
        "[Session Context]\n[Recent Conversation Follows]"
    );
}

#[test]
fn merge_joins_summaries_and_caps_facts() {
    let existing = CompactedContext {
        summary: Some("A".to_string()),
        facts: (0..15)
            .map(|i| CompactedFact {
                category: FactCategory::Context,
                content: format!("old {}", i),
            })
            .collect(),
    };
    let new = CompactedContext {
        summary: Some("B".to_string()),
        facts: (0..15)
            .map(|i| CompactedFact {
                category: FactCategory::Decision,
                content: format!("new {}", i),
            })
            .collect(),
    };
    let merged = merge_compacted_contexts(&existing, new);
    assert_eq!(merged.summary, Some("A B".to_string()));
    assert_eq!(merged.facts.len(), 20);
    assert_eq!(merged.facts[0].content, "old 0");
    assert_eq!(merged.facts[19].content, "new 4");
}

#[test]
fn merge_into_empty_gives_new() {
    let new = CompactedContext {
        summary: Some("only".to_string()),
        facts: vec![],
    };
    let merged = merge_compacted_contexts(&empty_context(), new);
    assert_eq!(merged.summary, Some("only".to_string()));
    assert!(merged.facts.is_empty());
}

#[test]
fn extract_json_takes_braces_from_prose() {
    assert_eq!(
        extract_json_from_response("Sure: {\"a\": 1} done"),
        "{\"a\": 1}"
    );
}

#[test]
fn estimate_context_size_counts_system_and_messages() {
    let messages = numbered_messages(2);
    // "Message 0" and "Message 1" are 9 chars: 2 tokens each; the system prompt 8 chars: 2.
    let size = estimate_context_size(Some("abcdefgh"), &messages, None);
    assert!(size >= 6);
}

#[test]
fn plan_compaction_decides_by_size_and_count() {
    let small = numbered_messages(4);
    assert_eq!(
        plan_compaction(&small, None, &empty_context(), 200_000),
        CompactionPlan::NotNeeded
    );
    assert_eq!(
        plan_compaction(&small, None, &empty_context(), 1),
        CompactionPlan::NotEnoughMessages
    );
    let medium = numbered_messages(10);
    match plan_compaction(&medium, None, &empty_context(), 1) {
        CompactionPlan::Compact { aggressive, .. } => assert!(aggressive),
        other => panic!("unexpected plan {:?}", other),
    }
    let large = numbered_messages(20);
    match plan_compaction(&large, None, &empty_context(), 1) {
        CompactionPlan::Compact { aggressive, .. } => assert!(!aggressive),
        other => panic!("unexpected plan {:?}", other),
    }
    assert_eq!(not_enough_messages_warning(), "Unable to compact: not enough messages");
}

#[test]
fn extraction_input_prepends_existing_summary() {
    assert_eq!(extraction_input("conv", &empty_context()), "conv");
    let existing = CompactedContext {
        summary: Some("S".to_string()),
        facts: vec![],
    };
    assert_eq!(
        extraction_input("conv", &existing),
        "Previous session context:\n[Session Context]\nSummary: S\n\n[Recent Conversation Follows]\n\nNew conversation to analyze:\nconv"
    );
}

#[test]
fn finish_compaction_merges_and_reports() {
    let existing = CompactedContext {
        summary: Some("Old".to_string()),
        facts: vec![],
    };
    let extraction = ExtractionResponse {
        summary: "New".to_string(),
        facts: vec![ExtractionFact {
            category: "Decision".to_string(),
            content: "Keep it".to_string(),
        }],
    };
    let preserved = numbered_messages(2);
    let outcome = finish_compaction(&existing, extraction, preserved, 1234);
    assert_eq!(outcome.merged.summary, Some("Old New".to_string()));
    assert_eq!(outcome.merged.facts.len(), 1);
    assert_eq!(outcome.payload.original_tokens, 1234);
    assert_eq!(outcome.payload.facts_count, 1);
    assert_eq!(outcome.result.preserved_messages.len(), 2);
    assert_eq!(
        outcome.result.compacted_text,
        "[Session Context]\nSummary: Old New\n\nKey Facts:\n- [DECISION] Keep it\n\n[Recent Conversation Follows]"
    );
}

#[test]
fn prepare_turn_adds_context_to_system_prompt() {
    let messages = numbered_messages(3);
    let (kept, system) = prepare_turn("base", None, messages, &empty_context());
    assert_eq!(kept.len(), 3);
    assert_eq!(system, "base");

    let existing = CompactedContext {
        summary: Some("S".to_string()),
        facts: vec![],
    };
    let (_, system) = prepare_turn("base", None, numbered_messages(1), &existing);
    assert_eq!(
        system,
        "base\n\n[Session Context]\nSummary: S\n\n[Recent Conversation Follows]"
    );

    let result = CompactionResult {
        preserved_messages: numbered_messages(2),
        compacted_text: "CTX".to_string(),
    };
    let (kept, system) = prepare_turn("base", Some(result), numbered_messages(5), &existing);
    assert_eq!(kept.len(), 2);
    assert_eq!(system, "base\n\nCTX");
}

#[test]
fn new_messages_get_hyphenated_uuid_ids() {
    let m = ChatMessage::new(MessageRole::User, "hello".to_string());
    let id: Vec<char> = m.id.chars().collect();
    assert_eq!(id.len(), 36);
    for (i, c) in id.iter().enumerate() {
        if [8, 13, 18, 23].contains(&i) {
            assert_eq!(*c, '-');
        } else {
            assert!(c.is_ascii_hexdigit() && !c.is_ascii_uppercase());
        }
    }
    assert_ne!(m.id, ChatMessage::new(MessageRole::User, "hello".to_string()).id);
}
