//! The two event protocols of a generation backend.
//!
//! A backend adapter feeds the engine [`BackendEvent`]s: the low-level,
//! single-pass delta protocol common to streaming generation APIs. The
//! translator turns those into [`StreamEvent`]s, the normalized,
//! provider-agnostic protocol the engine's callers observe.

use vstd::prelude::*;

verus! {

use crate::message::{
    ContentBlock, ContentBlockView, Message, MessageView, Role, StopReason, SystemPrompt,
    SystemPromptView,
};
use crate::tool::{ToolSpec, ToolSpecView};

/// How a newly opened low-level content block declared itself.
#[derive(Clone, Debug, PartialEq)]
pub enum BlockOpen {
    /// A plain text block.
    Text,
    /// A tool invocation block, with its id and tool name.
    ToolUse { id: String, name: String },
    /// A block kind this engine does not know; it is dropped, never fatal.
    Other,
}

/// Deep view of [`BlockOpen`].
#[verifier::ext_equal]
pub enum BlockOpenView {
    Text,
    ToolUse { id: Seq<char>, name: Seq<char> },
    Other,
}

impl DeepView for BlockOpen {
    type V = BlockOpenView;

    open spec fn deep_view(&self) -> BlockOpenView {
        match self {
            BlockOpen::Text => BlockOpenView::Text,
            BlockOpen::ToolUse { id, name } => BlockOpenView::ToolUse {
                id: id.view(),
                name: name.view(),
            },
            BlockOpen::Other => BlockOpenView::Other,
        }
    }
}

/// One increment of an open low-level block.
#[derive(Clone, Debug, PartialEq)]
pub enum BlockDelta {
    /// More characters of a text block.
    Text(String),
    /// More characters of a tool invocation's JSON input.
    InputJson(String),
}

/// Deep view of [`BlockDelta`].
#[verifier::ext_equal]
pub enum BlockDeltaView {
    Text(Seq<char>),
    InputJson(Seq<char>),
}

impl DeepView for BlockDelta {
    type V = BlockDeltaView;

    open spec fn deep_view(&self) -> BlockDeltaView {
        match self {
            BlockDelta::Text(t) => BlockDeltaView::Text(t.view()),
            BlockDelta::InputJson(j) => BlockDeltaView::InputJson(j.view()),
        }
    }
}

/// A low-level event of the backend's delta protocol, in the order the
/// backend produced it.
#[derive(Clone, Debug, PartialEq)]
pub enum BackendEvent {
    /// A keep-alive; carries nothing.
    Ping,
    /// Generation of a message began.
    MessageStart { role: Role },
    /// A content block opened at the given position.
    ContentBlockStart { index: usize, open: BlockOpen },
    /// An open content block grew.
    ContentBlockDelta { index: usize, delta: BlockDelta },
    /// The content block at the given position closed.
    ContentBlockStop { index: usize },
    /// Metadata arrived; only a stop reason is understood.
    MessageDelta { stop_reason: Option<StopReason> },
    /// Generation of the message finished.
    MessageStop,
}

/// Deep view of [`BackendEvent`].
#[verifier::ext_equal]
pub enum BackendEventView {
    Ping,
    MessageStart { role: Role },
    ContentBlockStart { index: usize, open: BlockOpenView },
    ContentBlockDelta { index: usize, delta: BlockDeltaView },
    ContentBlockStop { index: usize },
    MessageDelta { stop_reason: Option<StopReason> },
    MessageStop,
}

impl DeepView for BackendEvent {
    type V = BackendEventView;

    open spec fn deep_view(&self) -> BackendEventView {
        match self {
            BackendEvent::Ping => BackendEventView::Ping,
            BackendEvent::MessageStart { role } => BackendEventView::MessageStart { role: *role },
            BackendEvent::ContentBlockStart { index, open } => BackendEventView::ContentBlockStart {
                index: *index,
                open: open.deep_view(),
            },
            BackendEvent::ContentBlockDelta { index, delta } => BackendEventView::ContentBlockDelta {
                index: *index,
                delta: delta.deep_view(),
            },
            BackendEvent::ContentBlockStop { index } => BackendEventView::ContentBlockStop {
                index: *index,
            },
            BackendEvent::MessageDelta { stop_reason } => BackendEventView::MessageDelta {
                stop_reason: *stop_reason,
            },
            BackendEvent::MessageStop => BackendEventView::MessageStop,
        }
    }
}

/// A normalized event observed by the engine's callers during streaming
/// response generation.
#[derive(Clone, Debug, PartialEq)]
pub enum StreamEvent {
    /// Response generation has started.
    MessageStart { role: Role },
    /// A text content block has started.
    TextStart { index: usize },
    /// Incremental text content.
    TextDelta { index: usize, delta: String },
    /// A tool use content block has started.
    ToolUseStart { index: usize, id: String, name: String },
    /// Incremental tool input JSON.
    ToolInputDelta { index: usize, delta: String },
    /// A reasoning content block has started.
    ReasoningStart { index: usize },
    /// Incremental reasoning content.
    ReasoningDelta {
        index: usize,
        text: Option<String>,
        signature: Option<String>,
        redacted: Option<Vec<u8>>,
    },
    /// A content block has completed.
    ContentBlockComplete { index: usize, block: ContentBlock },
    /// Response generation has finished.
    MessageComplete { message: Message, stop_reason: StopReason },
}

/// Deep view of [`StreamEvent`].
#[verifier::ext_equal]
pub enum StreamEventView {
    MessageStart { role: Role },
    TextStart { index: usize },
    TextDelta { index: usize, delta: Seq<char> },
    ToolUseStart { index: usize, id: Seq<char>, name: Seq<char> },
    ToolInputDelta { index: usize, delta: Seq<char> },
    ReasoningStart { index: usize },
    ReasoningDelta {
        index: usize,
        text: Option<Seq<char>>,
        signature: Option<Seq<char>>,
        redacted: Option<Seq<u8>>,
    },
    ContentBlockComplete { index: usize, block: ContentBlockView },
    MessageComplete { message: MessageView, stop_reason: StopReason },
}

impl DeepView for StreamEvent {
    type V = StreamEventView;

    open spec fn deep_view(&self) -> StreamEventView {
        match self {
            StreamEvent::MessageStart { role } => StreamEventView::MessageStart { role: *role },
            StreamEvent::TextStart { index } => StreamEventView::TextStart { index: *index },
            StreamEvent::TextDelta { index, delta } => StreamEventView::TextDelta {
                index: *index,
                delta: delta.view(),
            },
            StreamEvent::ToolUseStart { index, id, name } => StreamEventView::ToolUseStart {
                index: *index,
                id: id.view(),
                name: name.view(),
            },
            StreamEvent::ToolInputDelta { index, delta } => StreamEventView::ToolInputDelta {
                index: *index,
                delta: delta.view(),
            },
            StreamEvent::ReasoningStart { index } => StreamEventView::ReasoningStart {
                index: *index,
            },
            StreamEvent::ReasoningDelta { index, text, signature, redacted } => {
                StreamEventView::ReasoningDelta {
                    index: *index,
                    text: text.deep_view(),
                    signature: signature.deep_view(),
                    redacted: redacted.deep_view(),
                }
            },
            StreamEvent::ContentBlockComplete { index, block } => {
                StreamEventView::ContentBlockComplete { index: *index, block: block.deep_view() }
            },
            StreamEvent::MessageComplete { message, stop_reason } => {
                StreamEventView::MessageComplete {
                    message: message.deep_view(),
                    stop_reason: *stop_reason,
                }
            },
        }
    }
}

/// The caller's policy on tool use for one generation request.
#[derive(Clone, Debug, PartialEq)]
pub enum ToolPolicy {
    /// Let the model decide which tools to use.
    Auto,
    /// Do not allow tool use.
    Disabled,
    /// Require tool use.
    Required,
    /// Use a specific tool.
    Specific { name: String },
}

/// Deep view of [`ToolPolicy`].
#[verifier::ext_equal]
pub enum ToolPolicyView {
    Auto,
    Disabled,
    Required,
    Specific { name: Seq<char> },
}

impl DeepView for ToolPolicy {
    type V = ToolPolicyView;

    open spec fn deep_view(&self) -> ToolPolicyView {
        match self {
            ToolPolicy::Auto => ToolPolicyView::Auto,
            ToolPolicy::Disabled => ToolPolicyView::Disabled,
            ToolPolicy::Required => ToolPolicyView::Required,
            ToolPolicy::Specific { name } => ToolPolicyView::Specific { name: name.view() },
        }
    }
}

/// Configuration for one streaming generation request.
///
/// Sampling knobs that are floating-point on the wire (temperature,
/// nucleus size) belong to the transport adapter outside this library.
#[derive(Clone, Debug)]
pub struct StreamArgs {
    pub system_prompt: Option<SystemPrompt>,
    pub tool_policy: Option<ToolPolicy>,
    pub tool_specs: Option<Vec<ToolSpec>>,
    pub max_tokens: Option<u32>,
    pub stop_sequences: Option<Vec<String>>,
}

/// Deep view of [`StreamArgs`].
#[verifier::ext_equal]
pub struct StreamArgsView {
    pub system_prompt: Option<SystemPromptView>,
    pub tool_policy: Option<ToolPolicyView>,
    pub tool_specs: Option<Seq<ToolSpecView>>,
    pub max_tokens: Option<u32>,
    pub stop_sequences: Option<Seq<Seq<char>>>,
}

impl DeepView for StreamArgs {
    type V = StreamArgsView;

    open spec fn deep_view(&self) -> StreamArgsView {
        StreamArgsView {
            system_prompt: self.system_prompt.deep_view(),
            tool_policy: self.tool_policy.deep_view(),
            tool_specs: self.tool_specs.deep_view(),
            max_tokens: self.max_tokens,
            stop_sequences: self.stop_sequences.deep_view(),
        }
    }
}

impl Default for StreamArgs {
    /// A request with nothing set.
    fn default() -> (r: Self)
        ensures
            r.deep_view() == (StreamArgsView {
                system_prompt: None,
                tool_policy: None,
                tool_specs: None,
                max_tokens: None,
                stop_sequences: None,
            }),
    {
        StreamArgs {
            system_prompt: None,
            tool_policy: None,
            tool_specs: None,
            max_tokens: None,
            stop_sequences: None,
        }
    }
}

} // verus!
