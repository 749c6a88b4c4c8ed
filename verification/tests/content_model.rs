use agent_turn::error::Error;
use agent_turn::message::{
    CachePointBlock, ContentBlock, GuardBlock, GuardQualifier, GuardText, Message, Role,
    SystemPrompt, SystemPromptBlock, TextBlock,
};

#[test]
fn new_user_builds_a_single_text_block_message() {
    let m = Message::new_user("hi");
    assert!(matches!(m.role, Role::User));
    assert_eq!(m.content, vec![ContentBlock::Text(TextBlock("hi".to_string()))]);
}

#[test]
fn roles_render_as_their_wire_names() {
    assert_eq!(Role::User.as_text(), "user");
    assert_eq!(Role::Assistant.as_text(), "assistant");
}

#[test]
fn plain_prompt_renders_as_its_own_text() {
    let p = SystemPrompt::new("be brief");
    assert_eq!(p.to_text(), "be brief");
}

#[test]
fn structured_prompt_joins_text_blocks_and_skips_the_rest() {
    let p = SystemPrompt::Structured(vec![
        SystemPromptBlock::Text(TextBlock("first".to_string())),
        SystemPromptBlock::CachePoint(CachePointBlock::Default),
        SystemPromptBlock::Text(TextBlock("second".to_string())),
        SystemPromptBlock::Guard(GuardBlock::Text(GuardText {
            qualifiers: vec![GuardQualifier::Query],
            text: "guarded".to_string(),
        })),
        SystemPromptBlock::Text(TextBlock("third".to_string())),
    ]);
    assert_eq!(p.to_text(), "first\nsecond\nthird");
}

#[test]
fn empty_structured_prompt_renders_empty() {
    let p = SystemPrompt::Structured(Vec::new());
    assert_eq!(p.to_text(), "");
}

#[test]
fn errors_render_with_their_kind_prefix() {
    assert_eq!(Error::Io("gone".to_string()).message(), "IO error: gone");
    assert_eq!(Error::Json("bad".to_string()).message(), "JSON error: bad");
    assert_eq!(
        Error::ToolExecution("refused".to_string()).message(),
        "Tool execution error: refused"
    );
    assert_eq!(Error::McpError("down".to_string()).message(), "MCP error: down");
    assert_eq!(
        Error::IncompleteStream.message(),
        "stream ended without a message completion"
    );
}

#[test]
fn messages_clone_deeply() {
    let m = Message::new_user("original");
    let copy = m.clone();
    assert_eq!(m, copy);
}
