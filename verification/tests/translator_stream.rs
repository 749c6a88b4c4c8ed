use agent_turn::message::{ContentBlock, Role, StopReason, TextBlock, ToolInput};
use agent_turn::model_provider::{BackendEvent, BlockDelta, BlockOpen, StreamEvent};
use agent_turn::translator::StreamTranslator;

fn start_assistant(tr: &mut StreamTranslator) {
    let ev = tr.step(BackendEvent::MessageStart { role: Role::Assistant });
    assert!(matches!(ev, Some(StreamEvent::MessageStart { role: Role::Assistant })));
}

#[test]
fn text_deltas_concatenate_into_the_finalized_block() {
    let mut tr = StreamTranslator::new();
    start_assistant(&mut tr);
    let ev = tr.step(BackendEvent::ContentBlockStart { index: 0, open: BlockOpen::Text });
    assert_eq!(ev, Some(StreamEvent::TextStart { index: 0 }));
    let ev = tr.step(BackendEvent::ContentBlockDelta {
        index: 0,
        delta: BlockDelta::Text("He".to_string()),
    });
    assert_eq!(ev, Some(StreamEvent::TextDelta { index: 0, delta: "He".to_string() }));
    let ev = tr.step(BackendEvent::ContentBlockDelta {
        index: 0,
        delta: BlockDelta::Text("llo".to_string()),
    });
    assert_eq!(ev, Some(StreamEvent::TextDelta { index: 0, delta: "llo".to_string() }));
    let ev = tr.step(BackendEvent::ContentBlockStop { index: 0 });
    assert_eq!(
        ev,
        Some(StreamEvent::ContentBlockComplete {
            index: 0,
            block: ContentBlock::Text(TextBlock("Hello".to_string())),
        })
    );
}

#[test]
fn tool_input_deltas_concatenate_into_raw_json() {
    let mut tr = StreamTranslator::new();
    start_assistant(&mut tr);
    let ev = tr.step(BackendEvent::ContentBlockStart {
        index: 0,
        open: BlockOpen::ToolUse { id: "t1".to_string(), name: "lookup".to_string() },
    });
    assert_eq!(
        ev,
        Some(StreamEvent::ToolUseStart {
            index: 0,
            id: "t1".to_string(),
            name: "lookup".to_string(),
        })
    );
    let ev = tr.step(BackendEvent::ContentBlockDelta {
        index: 0,
        delta: BlockDelta::InputJson("{\"city\":".to_string()),
    });
    assert_eq!(ev, Some(StreamEvent::ToolInputDelta { index: 0, delta: "{\"city\":".to_string() }));
    let ev = tr.step(BackendEvent::ContentBlockDelta {
        index: 0,
        delta: BlockDelta::InputJson("\"Oslo\"}".to_string()),
    });
    assert_eq!(ev, Some(StreamEvent::ToolInputDelta { index: 0, delta: "\"Oslo\"}".to_string() }));
    let ev = tr.step(BackendEvent::ContentBlockStop { index: 0 });
    match ev {
        Some(StreamEvent::ContentBlockComplete { index: 0, block: ContentBlock::ToolUse(t) }) => {
            assert_eq!(t.id, "t1");
            assert_eq!(t.name, "lookup");
            assert_eq!(t.input, ToolInput::Json("{\"city\":\"Oslo\"}".to_string()));
        }
        other => panic!("expected a completed tool-use block, got {:?}", other),
    }
}

#[test]
fn malformed_tool_input_yields_the_null_placeholder() {
    for _ in 0..2 {
        let mut tr = StreamTranslator::new();
        start_assistant(&mut tr);
        tr.step(BackendEvent::ContentBlockStart {
            index: 0,
            open: BlockOpen::ToolUse { id: "t9".to_string(), name: "broken".to_string() },
        });
        tr.step(BackendEvent::ContentBlockDelta {
            index: 0,
            delta: BlockDelta::InputJson("{\"unterminated\":".to_string()),
        });
        let ev = tr.step(BackendEvent::ContentBlockStop { index: 0 });
        match ev {
            Some(StreamEvent::ContentBlockComplete {
                index: 0,
                block: ContentBlock::ToolUse(t),
            }) => {
                assert_eq!(t.id, "t9");
                assert_eq!(t.input, ToolInput::Null);
            }
            other => panic!("expected a completed tool-use block, got {:?}", other),
        }
    }
}

#[test]
fn message_complete_carries_all_finalized_blocks_in_order() {
    let mut tr = StreamTranslator::new();
    start_assistant(&mut tr);
    tr.step(BackendEvent::ContentBlockStart { index: 0, open: BlockOpen::Text });
    tr.step(BackendEvent::ContentBlockDelta { index: 0, delta: BlockDelta::Text("a".to_string()) });
    tr.step(BackendEvent::ContentBlockStop { index: 0 });
    tr.step(BackendEvent::ContentBlockStart {
        index: 1,
        open: BlockOpen::ToolUse { id: "t1".to_string(), name: "look".to_string() },
    });
    tr.step(BackendEvent::ContentBlockDelta {
        index: 1,
        delta: BlockDelta::InputJson("{}".to_string()),
    });
    tr.step(BackendEvent::ContentBlockStop { index: 1 });
    let ev = tr.step(BackendEvent::MessageStop);
    match ev {
        Some(StreamEvent::MessageComplete { message, stop_reason }) => {
            assert!(matches!(stop_reason, StopReason::EndTurn));
            assert!(matches!(message.role, Role::Assistant));
            assert_eq!(message.content.len(), 2);
            assert_eq!(message.content[0], ContentBlock::Text(TextBlock("a".to_string())));
            match &message.content[1] {
                ContentBlock::ToolUse(t) => {
                    assert_eq!(t.id, "t1");
                    assert_eq!(t.input, ToolInput::Json("{}".to_string()));
                }
                other => panic!("expected a tool-use block, got {:?}", other),
            }
        }
        other => panic!("expected a message completion, got {:?}", other),
    }
}

#[test]
fn stop_reason_last_writer_wins_and_defaults_to_end_turn() {
    let mut tr = StreamTranslator::new();
    start_assistant(&mut tr);
    assert_eq!(tr.step(BackendEvent::MessageDelta { stop_reason: Some(StopReason::MaxTokens) }), None);
    assert_eq!(tr.step(BackendEvent::MessageDelta { stop_reason: None }), None);
    assert_eq!(tr.step(BackendEvent::MessageDelta { stop_reason: Some(StopReason::ToolUse) }), None);
    let ev = tr.step(BackendEvent::MessageStop);
    match ev {
        Some(StreamEvent::MessageComplete { stop_reason, .. }) => {
            assert!(matches!(stop_reason, StopReason::ToolUse));
        }
        other => panic!("expected a message completion, got {:?}", other),
    }

    let mut tr = StreamTranslator::new();
    start_assistant(&mut tr);
    match tr.step(BackendEvent::MessageStop) {
        Some(StreamEvent::MessageComplete { stop_reason, .. }) => {
            assert!(matches!(stop_reason, StopReason::EndTurn));
        }
        other => panic!("expected a message completion, got {:?}", other),
    }
}

#[test]
fn keep_alives_unknown_blocks_and_bare_metadata_emit_nothing() {
    let mut tr = StreamTranslator::new();
    assert_eq!(tr.step(BackendEvent::Ping), None);
    start_assistant(&mut tr);
    assert_eq!(
        tr.step(BackendEvent::ContentBlockStart { index: 0, open: BlockOpen::Other }),
        None
    );
    assert_eq!(tr.step(BackendEvent::MessageDelta { stop_reason: None }), None);
}

#[test]
fn block_stop_without_start_finalizes_an_empty_text_block() {
    let mut tr = StreamTranslator::new();
    start_assistant(&mut tr);
    let ev = tr.step(BackendEvent::ContentBlockStop { index: 0 });
    assert_eq!(
        ev,
        Some(StreamEvent::ContentBlockComplete {
            index: 0,
            block: ContentBlock::Text(TextBlock(String::new())),
        })
    );
}

#[test]
fn message_start_resets_accumulated_state() {
    let mut tr = StreamTranslator::new();
    start_assistant(&mut tr);
    tr.step(BackendEvent::ContentBlockStart { index: 0, open: BlockOpen::Text });
    tr.step(BackendEvent::ContentBlockDelta {
        index: 0,
        delta: BlockDelta::Text("left over".to_string()),
    });
    tr.step(BackendEvent::ContentBlockStop { index: 0 });
    tr.step(BackendEvent::MessageDelta { stop_reason: Some(StopReason::MaxTokens) });
    start_assistant(&mut tr);
    match tr.step(BackendEvent::MessageStop) {
        Some(StreamEvent::MessageComplete { message, stop_reason }) => {
            assert_eq!(message.content.len(), 0);
            assert!(matches!(stop_reason, StopReason::EndTurn));
        }
        other => panic!("expected a message completion, got {:?}", other),
    }
}

#[test]
fn batch_run_emits_the_same_events_as_single_steps() {
    let script = || {
        vec![
            BackendEvent::MessageStart { role: Role::Assistant },
            BackendEvent::Ping,
            BackendEvent::ContentBlockStart { index: 0, open: BlockOpen::Text },
            BackendEvent::ContentBlockDelta { index: 0, delta: BlockDelta::Text("hi".to_string()) },
            BackendEvent::ContentBlockStop { index: 0 },
            BackendEvent::MessageDelta { stop_reason: Some(StopReason::StopSequence) },
            BackendEvent::MessageStop,
        ]
    };
    let mut batch = StreamTranslator::new();
    let outs = batch.run(script());

    let mut single = StreamTranslator::new();
    let mut expected = Vec::new();
    for ev in script() {
        if let Some(out) = single.step(ev) {
            expected.push(out);
        }
    }
    assert_eq!(outs, expected);
    assert_eq!(outs.len(), 5);
    assert!(matches!(
        outs.last(),
        Some(StreamEvent::MessageComplete { stop_reason: StopReason::StopSequence, .. })
    ));
}

#[test]
fn valid_tool_input_keeps_the_raw_text() {
    let mut tr = StreamTranslator::new();
    start_assistant(&mut tr);
    tr.step(BackendEvent::ContentBlockStart {
        index: 0,
        open: BlockOpen::ToolUse { id: "t2".to_string(), name: "echo".to_string() },
    });
    tr.step(BackendEvent::ContentBlockDelta {
        index: 0,
        delta: BlockDelta::InputJson("  [1, 2, 3]  ".to_string()),
    });
    match tr.step(BackendEvent::ContentBlockStop { index: 0 }) {
        Some(StreamEvent::ContentBlockComplete { block: ContentBlock::ToolUse(t), .. }) => {
            assert_eq!(t.input, ToolInput::Json("  [1, 2, 3]  ".to_string()));
        }
        other => panic!("expected a completed tool-use block, got {:?}", other),
    }
}
