//! The turn-loop core: what each round decides and what it appends.
//!
//! A turn is a sequence of rounds. In each round the caller streams a
//! message out of the backend (through the translator), then hands the
//! assembled message and its stop reason to [`Agent::complete_round`].
//! That call appends the assistant message to history and says whether
//! the turn is over or which tools the model requested. Tool outcomes
//! are wrapped by [`tool_results`] and attached with
//! [`Agent::attach_tool_results`], and the next round begins.
//!
//! Everything asynchronous — the transport, the actual execution of a
//! tool — stays with the caller; the decisions and every mutation of
//! history happen here, under contracts.

use vstd::prelude::*;

verus! {

use vstd::string::StringExecFns;

use crate::mcp_client::{McpClient, McpClientView};
use crate::message::{
    clone_messages, ContentBlock, ContentBlockView, Message, MessageView, Role, StopReason,
    SystemPrompt, SystemPromptView, TextBlock, ToolResult, ToolResultBlock, ToolResultBlockView,
    ToolResultContent, ToolResultContentView, ToolUseBlock, ToolUseBlockView,
};
use crate::model_provider::{StreamArgs, StreamArgsView};
use crate::tool::{clone_tool_specs, ToolSpec, ToolSpecView};

/// What an agent is created from. Tool handlers and transports stay
/// with the caller; the engine keeps the specs it must advertise.
pub struct AgentArgs {
    /// The system prompt; an empty text prompt when absent.
    pub system_prompt: Option<SystemPrompt>,
    /// Connected tool-providing clients, with their catalogs.
    pub mcp_clients: Vec<McpClient>,
    /// The seed conversation history.
    pub messages: Vec<Message>,
    /// Specs of the locally registered tools.
    pub tool_specs: Vec<ToolSpec>,
}

impl Default for AgentArgs {
    /// Arguments with nothing attached.
    fn default() -> (r: Self)
        ensures
            r.system_prompt is None,
            r.mcp_clients.deep_view() == Seq::<McpClientView>::empty(),
            r.messages.deep_view() == Seq::<MessageView>::empty(),
            r.tool_specs.deep_view() == Seq::<ToolSpecView>::empty(),
    {
        let r = AgentArgs {
            system_prompt: None,
            mcp_clients: Vec::new(),
            messages: Vec::new(),
            tool_specs: Vec::new(),
        };
        proof {
            assert(r.mcp_clients.deep_view() =~= Seq::<McpClientView>::empty());
            assert(r.messages.deep_view() =~= Seq::<MessageView>::empty());
            assert(r.tool_specs.deep_view() =~= Seq::<ToolSpecView>::empty());
        }
        r
    }
}

/// The turn-loop core: the conversation history and the tool catalogs,
/// with history mutated only by the round functions below.
pub struct Agent {
    system_prompt: SystemPrompt,
    mcp_clients: Vec<McpClient>,
    messages: Vec<Message>,
    tool_specs: Vec<ToolSpec>,
}

/// Deep view of [`Agent`].
#[verifier::ext_equal]
pub struct AgentView {
    pub system_prompt: SystemPromptView,
    pub mcp_clients: Seq<McpClientView>,
    pub messages: Seq<MessageView>,
    pub tool_specs: Seq<ToolSpecView>,
}

impl DeepView for Agent {
    type V = AgentView;

    closed spec fn deep_view(&self) -> AgentView {
        AgentView {
            system_prompt: self.system_prompt.deep_view(),
            mcp_clients: self.mcp_clients.deep_view(),
            messages: self.messages.deep_view(),
            tool_specs: self.tool_specs.deep_view(),
        }
    }
}

/// The catalogs of the attached clients, flattened in client order.
pub open spec fn remote_catalog(clients: Seq<McpClientView>) -> Seq<ToolSpecView>
    decreases clients.len(),
{
    if clients.len() == 0 {
        Seq::empty()
    } else {
        remote_catalog(clients.drop_last()) + clients.last().tool_specs
    }
}

/// The tool set advertised in one round: local specs first, then every
/// client's catalog, in order.
pub open spec fn combined_tools(a: AgentView) -> Seq<ToolSpecView> {
    a.tool_specs + remote_catalog(a.mcp_clients)
}

/// Whether the combined tool set names a tool `name`.
pub open spec fn spec_has_tool(a: AgentView, name: Seq<char>) -> bool {
    exists|i: int| 0 <= i < combined_tools(a).len() && combined_tools(a)[i].name == name
}

/// The tool invocations requested by a message, in content order.
pub open spec fn tool_uses_of(content: Seq<ContentBlockView>) -> Seq<ToolUseBlockView>
    decreases content.len(),
{
    if content.len() == 0 {
        Seq::empty()
    } else {
        let rest = tool_uses_of(content.drop_last());
        match content.last() {
            ContentBlockView::ToolUse(t) => rest.push(t),
            _ => rest,
        }
    }
}

/// What a completed round means for the turn.
#[derive(Debug)]
pub enum RoundDisposition {
    /// The turn is over; no further generation call follows.
    Finished,
    /// The model requested these tools, in content order; run them and
    /// attach the results before the next round.
    RunTools(Vec<ToolUseBlock>),
}

/// The tool invocations requested by a message, in content order.
pub fn tool_uses(message: &Message) -> (r: Vec<ToolUseBlock>)
    ensures
        r.deep_view() == tool_uses_of(message.deep_view().content),
{
    let mut r: Vec<ToolUseBlock> = Vec::new();
    let ghost content = message.deep_view().content;
    proof {
        assert(r.deep_view() =~= tool_uses_of(content.take(0)));
    }
    let mut i: usize = 0;
    while i < message.content.len()
        invariant
            0 <= i <= message.content.len(),
            content == message.deep_view().content,
            content.len() == message.content.len(),
            r.deep_view() =~= tool_uses_of(content.take(i as int)),
        decreases message.content.len() - i,
    {
        proof {
            assert(content.take(i + 1).drop_last() =~= content.take(i as int));
            assert(content.take(i + 1).last() == content[i as int]);
            assert(content[i as int] == message.content[i as int].deep_view());
        }
        match &message.content[i] {
            ContentBlock::ToolUse(t) => {
                r.push(t.clone());
                proof {
                    assert(r.deep_view() =~= tool_uses_of(content.take(i + 1)));
                }
            },
            _ => {
                proof {
                    assert(r.deep_view() =~= tool_uses_of(content.take(i + 1)));
                }
            },
        }
        i = i + 1;
    }
    proof {
        assert(content.take(content.len() as int) =~= content);
    }
    r
}

/// How the content of one finished tool result reads as views.
pub open spec fn tool_result_view(
    o: ToolResult,
) -> Result<Seq<ToolResultContentView>, Seq<ToolResultContentView>> {
    match o {
        Ok(v) => Ok(v.deep_view()),
        Err(v) => Err(v.deep_view()),
    }
}

/// The result block owed to one tool invocation: the tool's own outcome
/// when one was produced, and an error-tagged result naming the tool
/// when no registered tool matched.
pub open spec fn result_block_view(u: ToolUseBlockView, o: Option<ToolResult>) -> ToolResultBlockView {
    match o {
        Some(res) => ToolResultBlockView { id: u.id, content: tool_result_view(res) },
        None => ToolResultBlockView {
            id: u.id,
            content: Err(seq![ToolResultContentView::Text("tool not found: "@ + u.name)]),
        },
    }
}

/// Wrap one tool invocation's outcome as the result block to attach.
/// `None` means no registered or remote tool matched the requested
/// name; that is recovered, never fatal.
pub fn tool_result_block(use_block: &ToolUseBlock, outcome: Option<ToolResult>) -> (r: ToolResultBlock)
    ensures
        r.deep_view() == result_block_view(use_block.deep_view(), outcome),
{
    match outcome {
        Some(content) => ToolResultBlock { id: use_block.id.clone(), content },
        None => {
            let mut text = String::from_str("tool not found: ");
            text.append(use_block.name.as_str());
            let mut items: Vec<ToolResultContent> = Vec::new();
            items.push(ToolResultContent::Text(TextBlock(text)));
            let r = ToolResultBlock { id: use_block.id.clone(), content: Err(items) };
            proof {
                assert(r.deep_view().content->Err_0 =~= seq![
                    ToolResultContentView::Text("tool not found: "@ + use_block.deep_view().name),
                ]);
            }
            r
        },
    }
}

/// Whether `results` carries exactly one result per requested tool use,
/// id-matched and in the same order.
pub open spec fn results_match_uses(
    results: Seq<ContentBlockView>,
    uses: Seq<ToolUseBlockView>,
) -> bool {
    &&& results.len() == uses.len()
    &&& forall|i: int| 0 <= i < uses.len() ==> (#[trigger] results[i] matches
        ContentBlockView::ToolResult(rb) && rb.id == uses[i].id)
}

/// Wrap a whole round's outcomes: one result block per requested tool
/// use, in the order the uses appeared.
pub fn tool_results(uses: &Vec<ToolUseBlock>, outcomes: Vec<Option<ToolResult>>) -> (r: Vec<
    ContentBlock,
>)
    requires
        outcomes@.len() == uses@.len(),
    ensures
        r.deep_view().len() == uses.deep_view().len(),
        forall|i: int| 0 <= i < uses.deep_view().len() ==> r.deep_view()[i]
            == ContentBlockView::ToolResult(
            result_block_view(uses.deep_view()[i], outcomes@[i]),
        ),
        results_match_uses(r.deep_view(), uses.deep_view()),
{
    let mut r: Vec<ContentBlock> = Vec::new();
    let mut rest = outcomes;
    let ghost all = rest@;
    let mut i: usize = 0;
    while i < uses.len()
        invariant
            0 <= i <= uses@.len(),
            all.len() == uses@.len(),
            rest@ =~= all.skip(i as int),
            r.deep_view().len() == i,
            forall|j: int| 0 <= j < i ==> r.deep_view()[j] == ContentBlockView::ToolResult(
                result_block_view(uses.deep_view()[j], all[j]),
            ),
        decreases uses@.len() - i,
    {
        let outcome = rest.remove(0);
        proof {
            assert(outcome == all[i as int]);
            assert(rest@ =~= all.skip(i + 1));
            assert(uses.deep_view()[i as int] == uses@[i as int].deep_view());
        }
        let block = tool_result_block(&uses[i], outcome);
        let ghost before = r.deep_view();
        let ghost bv = block.deep_view();
        r.push(ContentBlock::ToolResult(block));
        proof {
            assert(r.deep_view() =~= before.push(ContentBlockView::ToolResult(bv)));
        }
        i = i + 1;
    }
    r
}

/// Law: a round that stops for tool use evolves history by exactly two
/// messages — the assistant message, then one user message whose
/// content is one result block per requested tool use, id-matched and
/// in the order the uses appeared. The two pushes are the ones
/// [`Agent::complete_round`] and [`Agent::attach_tool_results`] make,
/// and [`tool_results`] establishes the alignment required here.
pub proof fn lemma_tool_use_round(a0: AgentView, m: MessageView, results: Seq<ContentBlockView>)
    requires
        results_match_uses(results, tool_uses_of(m.content)),
    ensures
        ({
            let a1 = AgentView { messages: a0.messages.push(m), ..a0 };
            let a2 = AgentView {
                messages: a1.messages.push(MessageView { role: Role::User, content: results }),
                ..a1
            };
            &&& a2.messages.len() == a0.messages.len() + 2
            &&& a2.messages[a0.messages.len() as int] == m
            &&& a2.messages.last().role == Role::User
            &&& results_match_uses(a2.messages.last().content, tool_uses_of(m.content))
        }),
{
}

impl Agent {
    /// An agent over the given seed history, prompt and catalogs. A
    /// missing system prompt means the empty text prompt.
    pub fn new(args: AgentArgs) -> (r: Self)
        ensures
            r.deep_view() == (AgentView {
                system_prompt: match args.system_prompt {
                    Some(p) => p.deep_view(),
                    None => SystemPromptView::Text(Seq::empty()),
                },
                mcp_clients: args.mcp_clients.deep_view(),
                messages: args.messages.deep_view(),
                tool_specs: args.tool_specs.deep_view(),
            }),
    {
        let system_prompt = match args.system_prompt {
            Some(p) => p,
            None => SystemPrompt::Text(String::new()),
        };
        Agent {
            system_prompt,
            mcp_clients: args.mcp_clients,
            messages: args.messages,
            tool_specs: args.tool_specs,
        }
    }

    /// A snapshot of the conversation history, safe to hold while the
    /// turn goes on appending.
    pub fn messages(&self) -> (r: Vec<Message>)
        ensures
            r.deep_view() == self.deep_view().messages,
    {
        clone_messages(&self.messages)
    }

    /// The combined tool set of one round: local specs first, then each
    /// client's catalog, in client order.
    pub fn combined_specs(&self) -> (r: Vec<ToolSpec>)
        ensures
            r.deep_view() == combined_tools(self.deep_view()),
    {
        let ghost a = self.deep_view();
        let mut specs = clone_tool_specs(&self.tool_specs);
        let mut ci: usize = 0;
        proof {
            assert(a.mcp_clients.take(0) =~= Seq::<McpClientView>::empty());
            assert(specs.deep_view() =~= a.tool_specs + remote_catalog(a.mcp_clients.take(0)));
        }
        while ci < self.mcp_clients.len()
            invariant
                0 <= ci <= self.mcp_clients.len(),
                a == self.deep_view(),
                a.mcp_clients.len() == self.mcp_clients.len(),
                specs.deep_view() =~= a.tool_specs + remote_catalog(a.mcp_clients.take(ci as int)),
            decreases self.mcp_clients.len() - ci,
        {
            let ghost before = specs.deep_view();
            let mut catalog = clone_tool_specs(self.mcp_clients[ci].tool_specs());
            let ghost cat = catalog.deep_view();
            proof {
                assert(a.mcp_clients[ci as int] == self.mcp_clients@[ci as int].deep_view());
                assert(cat =~= a.mcp_clients[ci as int].tool_specs);
            }
            specs.append(&mut catalog);
            proof {
                assert(specs.deep_view() =~= before + cat);
                assert(a.mcp_clients.take(ci + 1).drop_last() =~= a.mcp_clients.take(ci as int));
                assert(a.mcp_clients.take(ci + 1).last() == a.mcp_clients[ci as int]);
                assert(specs.deep_view() =~= a.tool_specs + remote_catalog(
                    a.mcp_clients.take(ci + 1),
                ));
            }
            ci = ci + 1;
        }
        proof {
            assert(a.mcp_clients.take(a.mcp_clients.len() as int) =~= a.mcp_clients);
        }
        specs
    }

    /// Whether a tool of this name is registered locally or advertised
    /// by an attached client.
    pub fn has_tool(&self, name: &String) -> (r: bool)
        ensures
            r == spec_has_tool(self.deep_view(), name.view()),
    {
        let specs = self.combined_specs();
        let mut i: usize = 0;
        while i < specs.len()
            invariant
                0 <= i <= specs@.len(),
                specs.deep_view() == combined_tools(self.deep_view()),
                forall|j: int| 0 <= j < i ==> specs.deep_view()[j].name != name.view(),
            decreases specs@.len() - i,
        {
            if specs[i].name == *name {
                proof {
                    assert(specs.deep_view()[i as int].name == name.view());
                }
                return true;
            }
            i = i + 1;
        }
        false
    }

    /// The generation request of the next round: the system prompt, the
    /// combined tool set (absent when empty), and the token ceiling.
    pub fn turn_args(&self) -> (r: StreamArgs)
        ensures
            r.deep_view() == (StreamArgsView {
                system_prompt: Some(self.deep_view().system_prompt),
                tool_policy: None,
                tool_specs: if combined_tools(self.deep_view()).len() > 0 {
                    Some(combined_tools(self.deep_view()))
                } else {
                    None
                },
                max_tokens: Some(4096u32),
                stop_sequences: None,
            }),
    {
        let specs = self.combined_specs();
        let tool_specs = if specs.len() > 0 {
            Some(specs)
        } else {
            None
        };
        StreamArgs {
            system_prompt: Some(self.system_prompt.clone()),
            tool_policy: None,
            tool_specs,
            max_tokens: Some(4096),
            stop_sequences: None,
        }
    }

    /// Observe a completed generation: append the assistant message to
    /// history, and decide the turn. Any stop reason other than tool
    /// use finishes the turn; so does a tool-use stop with no tool
    /// invocations in the assembled content.
    pub fn complete_round(&mut self, message: Message, stop_reason: StopReason) -> (d:
        RoundDisposition)
        ensures
            final(self).deep_view() == (AgentView {
                messages: old(self).deep_view().messages.push(message.deep_view()),
                ..old(self).deep_view()
            }),
            match d {
                RoundDisposition::Finished => stop_reason != StopReason::ToolUse || tool_uses_of(
                    message.deep_view().content,
                ).len() == 0,
                RoundDisposition::RunTools(ts) => stop_reason == StopReason::ToolUse
                    && ts.deep_view() == tool_uses_of(message.deep_view().content)
                    && ts.deep_view().len() > 0,
            },
    {
        let uses = tool_uses(&message);
        let ghost mv = message.deep_view();
        self.messages.push(message);
        proof {
            assert(self.deep_view().messages =~= old(self).deep_view().messages.push(mv));
            assert(self.deep_view() =~= (AgentView {
                messages: old(self).deep_view().messages.push(mv),
                ..old(self).deep_view()
            }));
        }
        match stop_reason {
            StopReason::ToolUse => {
                if uses.len() > 0 {
                    RoundDisposition::RunTools(uses)
                } else {
                    RoundDisposition::Finished
                }
            },
            _ => RoundDisposition::Finished,
        }
    }

    /// Attach a round's tool results: append the user message whose
    /// content is exactly the collected result blocks, in order.
    pub fn attach_tool_results(&mut self, results: Vec<ContentBlock>)
        requires
            results@.len() > 0,
        ensures
            final(self).deep_view() == (AgentView {
                messages: old(self).deep_view().messages.push(MessageView {
                    role: Role::User,
                    content: results.deep_view(),
                }),
                ..old(self).deep_view()
            }),
    {
        let ghost rv = results.deep_view();
        self.messages.push(Message { role: Role::User, content: results });
        proof {
            assert(self.deep_view().messages =~= old(self).deep_view().messages.push(MessageView {
                role: Role::User,
                content: rv,
            }));
            assert(self.deep_view() =~= (AgentView {
                messages: old(self).deep_view().messages.push(MessageView {
                    role: Role::User,
                    content: rv,
                }),
                ..old(self).deep_view()
            }));
        }
    }
}

} // verus!
