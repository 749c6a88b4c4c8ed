use agent_turn::agent::{tool_results, tool_uses, Agent, AgentArgs, RoundDisposition};
use agent_turn::mcp_client::McpClient;
use agent_turn::message::{
    ContentBlock, Message, Role, StopReason, TextBlock, ToolInput, ToolResult, ToolResultContent,
    ToolUseBlock,
};
use agent_turn::model_provider::{BackendEvent, BlockDelta, BlockOpen, StreamEvent};
use agent_turn::tool::ToolSpec;
use agent_turn::translator::StreamTranslator;

fn spec_named(name: &str) -> ToolSpec {
    ToolSpec {
        name: name.to_string(),
        display_name: None,
        description: None,
        input_schema: "{\"type\":\"object\"}".to_string(),
    }
}

fn outcomes_for(agent: &Agent, uses: &[ToolUseBlock], ok_text: &str) -> Vec<Option<ToolResult>> {
    let mut outcomes = Vec::new();
    for u in uses {
        if agent.has_tool(&u.name) {
            outcomes.push(Some(Ok(vec![ToolResultContent::Text(TextBlock(
                ok_text.to_string(),
            ))])));
        } else {
            outcomes.push(None);
        }
    }
    outcomes
}

#[test]
fn plain_text_round_appends_one_message_and_finishes() {
    let mut agent = Agent::new(AgentArgs {
        system_prompt: None,
        mcp_clients: Vec::new(),
        messages: vec![Message::new_user("hi")],
        tool_specs: Vec::new(),
    });

    let mut tr = StreamTranslator::new();
    let mut seen = Vec::new();
    let script = vec![
        BackendEvent::MessageStart { role: Role::Assistant },
        BackendEvent::ContentBlockStart { index: 0, open: BlockOpen::Text },
        BackendEvent::ContentBlockDelta { index: 0, delta: BlockDelta::Text("Hello".to_string()) },
        BackendEvent::ContentBlockStop { index: 0 },
        BackendEvent::MessageStop,
    ];
    for ev in script {
        if let Some(out) = tr.step(ev) {
            seen.push(out);
        }
    }
    assert_eq!(seen.len(), 5);
    assert_eq!(seen[0], StreamEvent::MessageStart { role: Role::Assistant });
    assert_eq!(seen[1], StreamEvent::TextStart { index: 0 });
    assert_eq!(seen[2], StreamEvent::TextDelta { index: 0, delta: "Hello".to_string() });
    assert_eq!(
        seen[3],
        StreamEvent::ContentBlockComplete {
            index: 0,
            block: ContentBlock::Text(TextBlock("Hello".to_string())),
        }
    );
    let (message, stop_reason) = match seen.pop() {
        Some(StreamEvent::MessageComplete { message, stop_reason }) => (message, stop_reason),
        other => panic!("expected a message completion, got {:?}", other),
    };
    assert!(matches!(stop_reason, StopReason::EndTurn));

    let d = agent.complete_round(message, stop_reason);
    assert!(matches!(d, RoundDisposition::Finished));
    let history = agent.messages();
    assert_eq!(history.len(), 2);
    assert!(matches!(history[1].role, Role::Assistant));
    assert_eq!(history[1].content, vec![ContentBlock::Text(TextBlock("Hello".to_string()))]);
}

#[test]
fn tool_use_round_attaches_matching_results_and_continues() {
    let mut agent = Agent::new(AgentArgs {
        system_prompt: None,
        mcp_clients: Vec::new(),
        messages: vec![Message::new_user("look something up")],
        tool_specs: vec![spec_named("lookup")],
    });

    let assistant = Message {
        role: Role::Assistant,
        content: vec![ContentBlock::ToolUse(ToolUseBlock {
            id: "t1".to_string(),
            name: "lookup".to_string(),
            input: ToolInput::Json("{}".to_string()),
        })],
    };
    let d = agent.complete_round(assistant, StopReason::ToolUse);
    let uses = match d {
        RoundDisposition::RunTools(uses) => uses,
        other => panic!("expected a tool round, got {:?}", other),
    };
    assert_eq!(uses.len(), 1);
    assert_eq!(uses[0].id, "t1");

    let outcomes = outcomes_for(&agent, &uses, "42");
    let results = tool_results(&uses, outcomes);
    agent.attach_tool_results(results);

    let history = agent.messages();
    assert_eq!(history.len(), 3);
    assert!(matches!(history[1].role, Role::Assistant));
    assert!(matches!(history[2].role, Role::User));
    match &history[2].content[0] {
        ContentBlock::ToolResult(r) => {
            assert_eq!(r.id, "t1");
            assert_eq!(
                r.content,
                Ok(vec![ToolResultContent::Text(TextBlock("42".to_string()))])
            );
        }
        other => panic!("expected a tool result, got {:?}", other),
    }
}

#[test]
fn unknown_tool_yields_an_error_result_and_the_turn_proceeds() {
    let mut agent = Agent::new(AgentArgs {
        system_prompt: None,
        mcp_clients: Vec::new(),
        messages: Vec::new(),
        tool_specs: Vec::new(),
    });

    let assistant = Message {
        role: Role::Assistant,
        content: vec![ContentBlock::ToolUse(ToolUseBlock {
            id: "t7".to_string(),
            name: "missing".to_string(),
            input: ToolInput::Json("{}".to_string()),
        })],
    };
    let d = agent.complete_round(assistant, StopReason::ToolUse);
    let uses = match d {
        RoundDisposition::RunTools(uses) => uses,
        other => panic!("expected a tool round, got {:?}", other),
    };

    let outcomes = outcomes_for(&agent, &uses, "unused");
    assert_eq!(outcomes, vec![None]);
    let results = tool_results(&uses, outcomes);
    agent.attach_tool_results(results);

    let history = agent.messages();
    assert_eq!(history.len(), 2);
    match &history[1].content[0] {
        ContentBlock::ToolResult(r) => {
            assert_eq!(r.id, "t7");
            assert_eq!(
                r.content,
                Err(vec![ToolResultContent::Text(TextBlock(
                    "tool not found: missing".to_string(),
                ))])
            );
        }
        other => panic!("expected a tool result, got {:?}", other),
    }
}

#[test]
fn tool_use_stop_without_tool_blocks_finishes_the_turn() {
    let mut agent = Agent::new(AgentArgs {
        system_prompt: None,
        mcp_clients: Vec::new(),
        messages: Vec::new(),
        tool_specs: Vec::new(),
    });
    let assistant = Message {
        role: Role::Assistant,
        content: vec![ContentBlock::Text(TextBlock("no tools here".to_string()))],
    };
    let d = agent.complete_round(assistant, StopReason::ToolUse);
    assert!(matches!(d, RoundDisposition::Finished));
    assert_eq!(agent.messages().len(), 1);
}

#[test]
fn results_preserve_the_order_of_multiple_tool_uses() {
    let message = Message {
        role: Role::Assistant,
        content: vec![
            ContentBlock::ToolUse(ToolUseBlock {
                id: "a".to_string(),
                name: "first".to_string(),
                input: ToolInput::Null,
            }),
            ContentBlock::Text(TextBlock("between".to_string())),
            ContentBlock::ToolUse(ToolUseBlock {
                id: "b".to_string(),
                name: "second".to_string(),
                input: ToolInput::Null,
            }),
        ],
    };
    let uses = tool_uses(&message);
    assert_eq!(uses.len(), 2);
    assert_eq!(uses[0].id, "a");
    assert_eq!(uses[1].id, "b");

    let outcomes = vec![Some(Ok(Vec::new())), Some(Err(Vec::new()))];
    let results = tool_results(&uses, outcomes);
    assert_eq!(results.len(), 2);
    match (&results[0], &results[1]) {
        (ContentBlock::ToolResult(r0), ContentBlock::ToolResult(r1)) => {
            assert_eq!(r0.id, "a");
            assert_eq!(r0.content, Ok(Vec::new()));
            assert_eq!(r1.id, "b");
            assert_eq!(r1.content, Err(Vec::new()));
        }
        other => panic!("expected two tool results, got {:?}", other),
    }
}

#[test]
fn turn_args_combine_local_and_remote_catalogs_in_order() {
    let remote = McpClient::new(
        "search".to_string(),
        "1.0".to_string(),
        vec![spec_named("web_search")],
    );
    let agent = Agent::new(AgentArgs {
        system_prompt: Some(agent_turn::message::SystemPrompt::new("be brief")),
        mcp_clients: vec![remote],
        messages: Vec::new(),
        tool_specs: vec![spec_named("lookup")],
    });

    let args = agent.turn_args();
    assert_eq!(args.max_tokens, Some(4096));
    assert!(args.tool_policy.is_none());
    assert!(args.stop_sequences.is_none());
    let specs = args.tool_specs.expect("combined tool set should be advertised");
    assert_eq!(specs.len(), 2);
    assert_eq!(specs[0].name, "lookup");
    assert_eq!(specs[1].name, "web_search");

    assert!(agent.has_tool(&"web_search".to_string()));
    assert!(agent.has_tool(&"lookup".to_string()));
    assert!(!agent.has_tool(&"absent".to_string()));
}

#[test]
fn empty_tool_set_is_not_advertised() {
    let agent = Agent::new(AgentArgs {
        system_prompt: None,
        mcp_clients: Vec::new(),
        messages: Vec::new(),
        tool_specs: Vec::new(),
    });
    let args = agent.turn_args();
    assert!(args.tool_specs.is_none());
    assert_eq!(
        args.system_prompt,
        Some(agent_turn::message::SystemPrompt::Text(String::new()))
    );
}

#[test]
fn history_snapshot_is_independent_of_later_appends() {
    let mut agent = Agent::new(AgentArgs {
        system_prompt: None,
        mcp_clients: Vec::new(),
        messages: vec![Message::new_user("hi")],
        tool_specs: Vec::new(),
    });
    let snapshot = agent.messages();
    let assistant = Message {
        role: Role::Assistant,
        content: vec![ContentBlock::Text(TextBlock("later".to_string()))],
    };
    agent.complete_round(assistant, StopReason::EndTurn);
    assert_eq!(snapshot.len(), 1);
    assert_eq!(agent.messages().len(), 2);
}
