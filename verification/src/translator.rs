//! The stream translator: reconstructing complete content blocks from a
//! backend's incremental delta protocol.
//!
//! The translator is a deterministic state machine. Its transition
//! relation is written out as two spec functions, [`step_state`] and
//! [`step_output`], and the executable [`StreamTranslator::step`] is
//! proved to follow them exactly. Everything the engine claims about
//! event streams is proved against the same two functions.

use vstd::prelude::*;

verus! {

use vstd::string::StringExecFns;

use crate::json::{json_is_valid, json_parses};
use crate::message::{
    ContentBlock, ContentBlockView, Message, MessageView, Role, StopReason, TextBlock, ToolInput,
    ToolInputView, ToolUseBlock, ToolUseBlockView,
};
use crate::model_provider::{
    BackendEvent, BackendEventView, BlockDelta, BlockDeltaView, BlockOpen, BlockOpenView,
    StreamEvent, StreamEventView,
};

/// The translator's per-message state, as mathematical values.
#[verifier::ext_equal]
pub struct TranslatorView {
    /// The role announced for the in-flight message.
    pub role: Role,
    /// The content blocks finalized so far, in completion order.
    pub blocks: Seq<ContentBlockView>,
    /// The text accumulated for the open text block.
    pub text_buf: Seq<char>,
    /// The id of the open tool invocation block; empty when none is open.
    pub tool_id: Seq<char>,
    /// The tool name of the open tool invocation block.
    pub tool_name: Seq<char>,
    /// The JSON input accumulated for the open tool invocation block.
    pub tool_input: Seq<char>,
    /// The pending stop reason; the last one signalled wins.
    pub stop_reason: StopReason,
}

/// The state a translator starts in, and returns to at each message
/// start: no blocks, empty buffers, stop reason defaulted.
pub open spec fn fresh_state(role: Role) -> TranslatorView {
    TranslatorView {
        role,
        blocks: Seq::empty(),
        text_buf: Seq::empty(),
        tool_id: Seq::empty(),
        tool_name: Seq::empty(),
        tool_input: Seq::empty(),
        stop_reason: StopReason::EndTurn,
    }
}

/// The block a "block stopped" event finalizes out of the current
/// buffers: a tool invocation when one is open (its input the raw JSON
/// if that parses, the null placeholder if not), a text block otherwise.
pub open spec fn finalized_block(s: TranslatorView) -> ContentBlockView {
    if s.tool_id.len() > 0 {
        ContentBlockView::ToolUse(ToolUseBlockView {
            id: s.tool_id,
            name: s.tool_name,
            input: if json_parses(s.tool_input) {
                ToolInputView::Json(s.tool_input)
            } else {
                ToolInputView::Null
            },
        })
    } else {
        ContentBlockView::Text(s.text_buf)
    }
}

/// The translator state after consuming one backend event.
pub open spec fn step_state(s: TranslatorView, ev: BackendEventView) -> TranslatorView {
    match ev {
        BackendEventView::Ping => s,
        BackendEventView::MessageStart { role } => fresh_state(role),
        BackendEventView::ContentBlockStart { index, open } => match open {
            BlockOpenView::Text => TranslatorView { text_buf: Seq::empty(), ..s },
            BlockOpenView::ToolUse { id, name } => TranslatorView {
                tool_id: id,
                tool_name: name,
                tool_input: Seq::empty(),
                ..s
            },
            BlockOpenView::Other => s,
        },
        BackendEventView::ContentBlockDelta { index, delta } => match delta {
            BlockDeltaView::Text(t) => TranslatorView { text_buf: s.text_buf + t, ..s },
            BlockDeltaView::InputJson(j) => TranslatorView { tool_input: s.tool_input + j, ..s },
        },
        BackendEventView::ContentBlockStop { index } => if s.tool_id.len() > 0 {
            TranslatorView {
                blocks: s.blocks.push(finalized_block(s)),
                tool_id: Seq::empty(),
                tool_name: Seq::empty(),
                tool_input: Seq::empty(),
                ..s
            }
        } else {
            TranslatorView { blocks: s.blocks.push(finalized_block(s)), text_buf: Seq::empty(), ..s }
        },
        BackendEventView::MessageDelta { stop_reason } => match stop_reason {
            Some(r) => TranslatorView { stop_reason: r, ..s },
            None => s,
        },
        BackendEventView::MessageStop => TranslatorView { blocks: Seq::empty(), ..s },
    }
}

/// The normalized event the translator emits for one backend event, if
/// any: keep-alives, unknown block kinds and bare metadata emit nothing.
pub open spec fn step_output(s: TranslatorView, ev: BackendEventView) -> Option<StreamEventView> {
    match ev {
        BackendEventView::Ping => None,
        BackendEventView::MessageStart { role } => Some(StreamEventView::MessageStart { role }),
        BackendEventView::ContentBlockStart { index, open } => match open {
            BlockOpenView::Text => Some(StreamEventView::TextStart { index }),
            BlockOpenView::ToolUse { id, name } => Some(
                StreamEventView::ToolUseStart { index, id, name },
            ),
            BlockOpenView::Other => None,
        },
        BackendEventView::ContentBlockDelta { index, delta } => match delta {
            BlockDeltaView::Text(t) => Some(StreamEventView::TextDelta { index, delta: t }),
            BlockDeltaView::InputJson(j) => Some(
                StreamEventView::ToolInputDelta { index, delta: j },
            ),
        },
        BackendEventView::ContentBlockStop { index } => Some(
            StreamEventView::ContentBlockComplete { index, block: finalized_block(s) },
        ),
        BackendEventView::MessageDelta { stop_reason } => None,
        BackendEventView::MessageStop => Some(
            StreamEventView::MessageComplete {
                message: MessageView { role: s.role, content: s.blocks },
                stop_reason: s.stop_reason,
            },
        ),
    }
}

/// The translator. One instance serves one in-flight generation call;
/// its state is never shared across concurrent turns.
#[derive(Debug)]
pub struct StreamTranslator {
    role: Role,
    blocks: Vec<ContentBlock>,
    text_buf: String,
    tool_id: String,
    tool_name: String,
    tool_input: String,
    stop_reason: StopReason,
}

impl DeepView for StreamTranslator {
    type V = TranslatorView;

    closed spec fn deep_view(&self) -> TranslatorView {
        TranslatorView {
            role: self.role,
            blocks: self.blocks.deep_view(),
            text_buf: self.text_buf.view(),
            tool_id: self.tool_id.view(),
            tool_name: self.tool_name.view(),
            tool_input: self.tool_input.view(),
            stop_reason: self.stop_reason,
        }
    }
}

impl StreamTranslator {
    /// A translator ready for a message stream.
    pub fn new() -> (t: Self)
        ensures
            t.deep_view() == fresh_state(Role::Assistant),
    {
        let t = StreamTranslator {
            role: Role::Assistant,
            blocks: Vec::new(),
            text_buf: String::new(),
            tool_id: String::new(),
            tool_name: String::new(),
            tool_input: String::new(),
            stop_reason: StopReason::EndTurn,
        };
        proof {
            assert(t.deep_view() =~= fresh_state(Role::Assistant));
        }
        t
    }

    /// Consume one backend event: advance the state by [`step_state`]
    /// and emit exactly what [`step_output`] names.
    pub fn step(&mut self, ev: BackendEvent) -> (out: Option<StreamEvent>)
        ensures
            final(self).deep_view() == step_state(old(self).deep_view(), ev.deep_view()),
            out.deep_view() == step_output(old(self).deep_view(), ev.deep_view()),
    {
        let ghost pre = self.deep_view();
        let ghost evv = ev.deep_view();
        match ev {
            BackendEvent::Ping => None,
            BackendEvent::MessageStart { role } => {
                self.role = role;
                self.blocks = Vec::new();
                self.text_buf = String::new();
                self.tool_id = String::new();
                self.tool_name = String::new();
                self.tool_input = String::new();
                self.stop_reason = StopReason::EndTurn;
                proof {
                    assert(self.deep_view() =~= step_state(pre, evv));
                }
                Some(StreamEvent::MessageStart { role })
            },
            BackendEvent::ContentBlockStart { index, open } => match open {
                BlockOpen::Text => {
                    self.text_buf = String::new();
                    proof {
                        assert(self.deep_view() =~= step_state(pre, evv));
                    }
                    Some(StreamEvent::TextStart { index })
                },
                BlockOpen::ToolUse { id, name } => {
                    self.tool_id = id.clone();
                    self.tool_name = name.clone();
                    self.tool_input = String::new();
                    proof {
                        assert(self.deep_view() =~= step_state(pre, evv));
                    }
                    Some(StreamEvent::ToolUseStart { index, id, name })
                },
                BlockOpen::Other => None,
            },
            BackendEvent::ContentBlockDelta { index, delta } => match delta {
                BlockDelta::Text(t) => {
                    self.text_buf.append(t.as_str());
                    proof {
                        assert(self.deep_view() =~= step_state(pre, evv));
                    }
                    Some(StreamEvent::TextDelta { index, delta: t })
                },
                BlockDelta::InputJson(j) => {
                    self.tool_input.append(j.as_str());
                    proof {
                        assert(self.deep_view() =~= step_state(pre, evv));
                    }
                    Some(StreamEvent::ToolInputDelta { index, delta: j })
                },
            },
            BackendEvent::ContentBlockStop { index } => {
                let block: ContentBlock;
                let out_block: ContentBlock;
                if !self.tool_id.as_str().is_empty() {
                    let id = self.tool_id.clone();
                    let name = self.tool_name.clone();
                    let raw = self.tool_input.clone();
                    self.tool_id = String::new();
                    self.tool_name = String::new();
                    self.tool_input = String::new();
                    let valid = json_is_valid(raw.as_str());
                    let input = if valid {
                        ToolInput::Json(raw.clone())
                    } else {
                        ToolInput::Null
                    };
                    let input_copy = if valid {
                        ToolInput::Json(raw)
                    } else {
                        ToolInput::Null
                    };
                    block = ContentBlock::ToolUse(ToolUseBlock {
                        id: id.clone(),
                        name: name.clone(),
                        input,
                    });
                    out_block = ContentBlock::ToolUse(ToolUseBlock { id, name, input: input_copy });
                } else {
                    let text = self.text_buf.clone();
                    self.text_buf = String::new();
                    block = ContentBlock::Text(TextBlock(text.clone()));
                    out_block = ContentBlock::Text(TextBlock(text));
                }
                proof {
                    assert(block.deep_view() == finalized_block(pre));
                    assert(out_block.deep_view() == finalized_block(pre));
                }
                self.blocks.push(block);
                proof {
                    assert(self.deep_view().blocks =~= pre.blocks.push(finalized_block(pre)));
                    assert(self.deep_view() =~= step_state(pre, evv));
                }
                Some(StreamEvent::ContentBlockComplete { index, block: out_block })
            },
            BackendEvent::MessageDelta { stop_reason } => {
                if let Some(r) = stop_reason {
                    self.stop_reason = r;
                }
                None
            },
            BackendEvent::MessageStop => {
                let mut content: Vec<ContentBlock> = Vec::new();
                core::mem::swap(&mut content, &mut self.blocks);
                proof {
                    assert(self.deep_view() =~= step_state(pre, evv));
                    assert(content.deep_view() =~= pre.blocks);
                }
                Some(StreamEvent::MessageComplete {
                    message: Message { role: self.role, content },
                    stop_reason: self.stop_reason,
                })
            },
        }
    }
}

impl StreamTranslator {
    /// Consume a whole event sequence, returning everything emitted, in
    /// order: the executable counterpart of [`run_state`] and
    /// [`run_outputs`], which the laws below speak of.
    pub fn run(&mut self, events: Vec<BackendEvent>) -> (outs: Vec<StreamEvent>)
        ensures
            final(self).deep_view() == run_state(old(self).deep_view(), events.deep_view()),
            outs.deep_view() == run_outputs(old(self).deep_view(), events.deep_view()),
    {
        let ghost evs = events.deep_view();
        let ghost all = events@;
        let ghost s0 = self.deep_view();
        let n = events.len();
        let mut outs: Vec<StreamEvent> = Vec::new();
        let mut rest = events;
        let mut i: usize = 0;
        proof {
            assert(evs.take(0) =~= Seq::<BackendEventView>::empty());
            assert(self.deep_view() =~= run_state(s0, evs.take(0)));
            assert(outs.deep_view() =~= run_outputs(s0, evs.take(0)));
        }
        while rest.len() > 0
            invariant
                i + rest@.len() == evs.len(),
                evs.len() == n,
                evs.len() == all.len(),
                forall|j: int| 0 <= j < all.len() ==> evs[j] == (#[trigger] all[j]).deep_view(),
                rest@ =~= all.skip(i as int),
                self.deep_view() == run_state(s0, evs.take(i as int)),
                outs.deep_view() =~= run_outputs(s0, evs.take(i as int)),
            decreases rest@.len(),
        {
            let ev = rest.remove(0);
            proof {
                assert(ev == all[i as int]);
                assert(rest@ =~= all.skip(i + 1));
                assert(ev.deep_view() == evs[i as int]);
                assert(evs.take(i + 1).drop_last() =~= evs.take(i as int));
                assert(evs.take(i + 1).last() == evs[i as int]);
            }
            let ghost pre_outs = outs.deep_view();
            let out = self.step(ev);
            match out {
                Some(e) => {
                    let ghost ev_view = e.deep_view();
                    outs.push(e);
                    proof {
                        assert(outs.deep_view() =~= pre_outs.push(ev_view));
                        assert(outs.deep_view() =~= run_outputs(s0, evs.take(i + 1)));
                    }
                },
                None => {
                    proof {
                        assert(outs.deep_view() =~= run_outputs(s0, evs.take(i + 1)));
                    }
                },
            }
            i = i + 1;
        }
        proof {
            assert(evs.take(evs.len() as int) =~= evs);
        }
        outs
    }
}

// ---------------------------------------------------------------------
// Runs over whole event sequences, and the laws proved about them.
// ---------------------------------------------------------------------

/// The state after consuming a whole event sequence, in order.
pub open spec fn run_state(s: TranslatorView, evs: Seq<BackendEventView>) -> TranslatorView
    decreases evs.len(),
{
    if evs.len() == 0 {
        s
    } else {
        step_state(run_state(s, evs.drop_last()), evs.last())
    }
}

/// One step's emission as a sequence: empty or a single event.
pub open spec fn opt_out(o: Option<StreamEventView>) -> Seq<StreamEventView> {
    match o {
        Some(e) => seq![e],
        None => Seq::empty(),
    }
}

/// Everything emitted while consuming a whole event sequence, in order.
pub open spec fn run_outputs(s: TranslatorView, evs: Seq<BackendEventView>) -> Seq<StreamEventView>
    decreases evs.len(),
{
    if evs.len() == 0 {
        Seq::empty()
    } else {
        run_outputs(s, evs.drop_last()) + opt_out(
            step_output(run_state(s, evs.drop_last()), evs.last()),
        )
    }
}

/// The blocks finalized while consuming a sequence, in completion order.
pub open spec fn run_finalized(s: TranslatorView, evs: Seq<BackendEventView>) -> Seq<
    ContentBlockView,
>
    decreases evs.len(),
{
    if evs.len() == 0 {
        Seq::empty()
    } else {
        run_finalized(s, evs.drop_last()) + (if evs.last() is ContentBlockStop {
            seq![finalized_block(run_state(s, evs.drop_last()))]
        } else {
            Seq::empty()
        })
    }
}

/// How many message-stop events a backend sequence carries.
pub open spec fn count_message_stops(evs: Seq<BackendEventView>) -> int
    decreases evs.len(),
{
    if evs.len() == 0 {
        0
    } else {
        count_message_stops(evs.drop_last()) + if evs.last() is MessageStop {
            1int
        } else {
            0int
        }
    }
}

/// How many completion events an emitted sequence carries.
pub open spec fn count_completions(outs: Seq<StreamEventView>) -> int
    decreases outs.len(),
{
    if outs.len() == 0 {
        0
    } else {
        count_completions(outs.drop_last()) + if outs.last() is MessageComplete {
            1int
        } else {
            0int
        }
    }
}

/// Running the empty sequence changes and emits nothing; running a
/// single event is one step.
pub proof fn lemma_run_single(s: TranslatorView, ev: BackendEventView)
    ensures
        run_state(s, Seq::<BackendEventView>::empty()) == s,
        run_outputs(s, Seq::<BackendEventView>::empty()) == Seq::<StreamEventView>::empty(),
        run_state(s, seq![ev]) == step_state(s, ev),
        run_outputs(s, seq![ev]) =~= opt_out(step_output(s, ev)),
{
    let evs = seq![ev];
    assert(evs.drop_last() =~= Seq::<BackendEventView>::empty());
    assert(run_state(s, evs.drop_last()) == s);
    assert(evs.last() == ev);
}

/// Counting over the empty and the singleton sequence.
proof fn lemma_count_singletons(ev: BackendEventView, out: StreamEventView)
    ensures
        count_message_stops(Seq::<BackendEventView>::empty()) == 0,
        count_completions(Seq::<StreamEventView>::empty()) == 0,
        count_message_stops(seq![ev]) == if ev is MessageStop {
            1int
        } else {
            0int
        },
        count_completions(seq![out]) == if out is MessageComplete {
            1int
        } else {
            0int
        },
{
    assert(seq![ev].drop_last() =~= Seq::<BackendEventView>::empty());
    assert(count_message_stops(seq![ev].drop_last()) == 0);
    assert(seq![ev].last() == ev);
    assert(seq![out].drop_last() =~= Seq::<StreamEventView>::empty());
    assert(count_completions(seq![out].drop_last()) == 0);
    assert(seq![out].last() == out);
}

/// Running a concatenation runs the two halves in sequence.
pub proof fn lemma_run_state_concat(s: TranslatorView, a: Seq<BackendEventView>, b: Seq<
    BackendEventView,
>)
    ensures
        run_state(s, a + b) == run_state(run_state(s, a), b),
    decreases b.len(),
{
    if b.len() == 0 {
        assert(a + b =~= a);
    } else {
        assert((a + b).drop_last() =~= a + b.drop_last());
        lemma_run_state_concat(s, a, b.drop_last());
    }
}

/// Emissions over a concatenation are the two halves' emissions.
pub proof fn lemma_run_outputs_concat(s: TranslatorView, a: Seq<BackendEventView>, b: Seq<
    BackendEventView,
>)
    ensures
        run_outputs(s, a + b) =~= run_outputs(s, a) + run_outputs(run_state(s, a), b),
    decreases b.len(),
{
    if b.len() == 0 {
        assert(a + b =~= a);
    } else {
        assert((a + b).drop_last() =~= a + b.drop_last());
        lemma_run_outputs_concat(s, a, b.drop_last());
        lemma_run_state_concat(s, a, b.drop_last());
    }
}

/// Completion counting distributes over concatenation.
pub proof fn lemma_count_completions_concat(a: Seq<StreamEventView>, b: Seq<StreamEventView>)
    ensures
        count_completions(a + b) == count_completions(a) + count_completions(b),
    decreases b.len(),
{
    if b.len() == 0 {
        assert(a + b =~= a);
    } else {
        assert((a + b).drop_last() =~= a + b.drop_last());
        lemma_count_completions_concat(a, b.drop_last());
    }
}

/// Stop counting distributes over concatenation.
pub proof fn lemma_count_stops_concat(a: Seq<BackendEventView>, b: Seq<BackendEventView>)
    ensures
        count_message_stops(a + b) == count_message_stops(a) + count_message_stops(b),
    decreases b.len(),
{
    if b.len() == 0 {
        assert(a + b =~= a);
    } else {
        assert((a + b).drop_last() =~= a + b.drop_last());
        lemma_count_stops_concat(a, b.drop_last());
    }
}

/// Law: the translator completes a message exactly as often as the
/// backend stops one — one `MessageComplete` per message-stop event,
/// whatever the sequence.
pub proof fn lemma_completions_match_stops(s: TranslatorView, evs: Seq<BackendEventView>)
    ensures
        count_completions(run_outputs(s, evs)) == count_message_stops(evs),
    decreases evs.len(),
{
    if evs.len() > 0 {
        let pre = evs.drop_last();
        lemma_completions_match_stops(s, pre);
        lemma_count_completions_concat(
            run_outputs(s, pre),
            opt_out(step_output(run_state(s, pre), evs.last())),
        );
        let out = step_output(run_state(s, pre), evs.last());
        match out {
            Some(e) => {
                lemma_count_singletons(evs.last(), e);
            },
            None => {
                lemma_count_singletons(evs.last(), StreamEventView::TextStart { index: 0 });
            },
        }
    }
}

/// A sequence without message boundaries only accumulates blocks: the
/// state's block list grows by exactly the finalized blocks, in order,
/// and the announced role is untouched.
pub proof fn lemma_blocks_accumulate(s: TranslatorView, evs: Seq<BackendEventView>)
    requires
        forall|i: int| 0 <= i < evs.len() ==> !((#[trigger] evs[i]) is MessageStart) && !(evs[i]
            is MessageStop),
    ensures
        run_state(s, evs).blocks =~= s.blocks + run_finalized(s, evs),
        run_state(s, evs).role == s.role,
    decreases evs.len(),
{
    if evs.len() > 0 {
        let pre = evs.drop_last();
        assert(forall|i: int| 0 <= i < pre.len() ==> pre[i] == evs[i]);
        lemma_blocks_accumulate(s, pre);
        assert(evs.last() == evs[evs.len() - 1]);
    }
}

/// Law: over one whole backend message — a start, any run of block and
/// metadata events, then a stop — the translator emits exactly one
/// completion, and the assembled message carries the announced role and
/// exactly the blocks finalized since the start, in completion order.
pub proof fn lemma_single_message_assembly(
    s0: TranslatorView,
    role: Role,
    mid: Seq<BackendEventView>,
)
    requires
        forall|i: int| 0 <= i < mid.len() ==> !((#[trigger] mid[i]) is MessageStart) && !(mid[i]
            is MessageStop),
    ensures
        ({
            let evs = seq![BackendEventView::MessageStart { role }] + mid + seq![
                BackendEventView::MessageStop,
            ];
            let outs = run_outputs(s0, evs);
            let s1 = fresh_state(role);
            &&& count_completions(outs) == 1
            &&& outs.len() > 0
            &&& outs.last() == StreamEventView::MessageComplete {
                message: MessageView { role, content: run_finalized(s1, mid) },
                stop_reason: run_state(s1, mid).stop_reason,
            }
        }),
{
    let start = seq![BackendEventView::MessageStart { role }];
    let stop = seq![BackendEventView::MessageStop];
    let evs = start + mid + stop;
    let s1 = fresh_state(role);

    lemma_run_single(s0, BackendEventView::MessageStart { role });
    assert(run_state(s0, start) == s1);

    lemma_run_state_concat(s0, start, mid);
    let s2 = run_state(s0, start + mid);
    assert(s2 == run_state(s1, mid));
    lemma_blocks_accumulate(s1, mid);
    assert(s2.blocks =~= run_finalized(s1, mid));
    assert(s2.role == role);

    // The final emission.
    lemma_run_outputs_concat(s0, start + mid, stop);
    assert(evs =~= (start + mid) + stop);
    assert(run_outputs(s0, evs) =~= run_outputs(s0, (start + mid) + stop));
    lemma_run_single(s2, BackendEventView::MessageStop);
    assert(run_outputs(s2, stop) =~= opt_out(step_output(s2, BackendEventView::MessageStop)));
    assert(step_output(s2, BackendEventView::MessageStop) == Some(
        StreamEventView::MessageComplete {
            message: MessageView { role: s2.role, content: s2.blocks },
            stop_reason: s2.stop_reason,
        },
    ));
    assert(MessageView { role: s2.role, content: s2.blocks } =~= MessageView {
        role,
        content: run_finalized(s1, mid),
    });

    // Exactly one completion.
    lemma_completions_match_stops(s0, evs);
    lemma_count_stops_concat(start + mid, stop);
    lemma_count_stops_concat(start, mid);
    lemma_no_stops_in(mid);
    lemma_count_singletons(
        BackendEventView::MessageStart { role },
        StreamEventView::TextStart { index: 0 },
    );
    lemma_count_singletons(
        BackendEventView::MessageStop,
        StreamEventView::TextStart { index: 0 },
    );
}

/// A sequence without message-stop events counts no stops.
proof fn lemma_no_stops_in(evs: Seq<BackendEventView>)
    requires
        forall|i: int| 0 <= i < evs.len() ==> !((#[trigger] evs[i]) is MessageStop),
    ensures
        count_message_stops(evs) == 0,
    decreases evs.len(),
{
    if evs.len() > 0 {
        let pre = evs.drop_last();
        assert(forall|i: int| 0 <= i < pre.len() ==> pre[i] == evs[i]);
        lemma_no_stops_in(pre);
        assert(evs.last() == evs[evs.len() - 1]);
    }
}

/// The delta events that feed one text block, in emission order.
pub open spec fn text_delta_events(index: usize, ds: Seq<Seq<char>>) -> Seq<BackendEventView> {
    Seq::new(
        ds.len(),
        |i: int| BackendEventView::ContentBlockDelta { index, delta: BlockDeltaView::Text(ds[i]) },
    )
}

/// The translated events owed for those text deltas, in the same order.
pub open spec fn text_delta_outputs(index: usize, ds: Seq<Seq<char>>) -> Seq<StreamEventView> {
    Seq::new(ds.len(), |i: int| StreamEventView::TextDelta { index, delta: ds[i] })
}

/// The delta events that feed one tool invocation's input, in order.
pub open spec fn input_delta_events(index: usize, ds: Seq<Seq<char>>) -> Seq<BackendEventView> {
    Seq::new(
        ds.len(),
        |i: int| BackendEventView::ContentBlockDelta {
            index,
            delta: BlockDeltaView::InputJson(ds[i]),
        },
    )
}

/// The translated events owed for those input deltas, in the same order.
pub open spec fn input_delta_outputs(index: usize, ds: Seq<Seq<char>>) -> Seq<StreamEventView> {
    Seq::new(ds.len(), |i: int| StreamEventView::ToolInputDelta { index, delta: ds[i] })
}

/// A sequence of pieces, concatenated in order.
pub open spec fn concat_all(ds: Seq<Seq<char>>) -> Seq<char>
    decreases ds.len(),
{
    if ds.len() == 0 {
        Seq::empty()
    } else {
        concat_all(ds.drop_last()) + ds.last()
    }
}

/// Feeding text deltas appends their concatenation to the text buffer,
/// emits exactly the matching delta events, and touches nothing else.
proof fn lemma_text_deltas_run(s1: TranslatorView, index: usize, ds: Seq<Seq<char>>)
    ensures
        run_state(s1, text_delta_events(index, ds)) == (TranslatorView {
            text_buf: s1.text_buf + concat_all(ds),
            ..s1
        }),
        run_outputs(s1, text_delta_events(index, ds)) =~= text_delta_outputs(index, ds),
    decreases ds.len(),
{
    let evs = text_delta_events(index, ds);
    if ds.len() == 0 {
        assert(evs.len() == 0);
        assert(s1.text_buf + concat_all(ds) =~= s1.text_buf);
        assert(run_state(s1, evs) =~= (TranslatorView { text_buf: s1.text_buf + concat_all(ds), ..s1 }));
    } else {
        let dpre = ds.drop_last();
        assert(evs.drop_last() =~= text_delta_events(index, dpre));
        lemma_text_deltas_run(s1, index, dpre);
        assert(evs.last() == BackendEventView::ContentBlockDelta {
            index,
            delta: BlockDeltaView::Text(ds.last()),
        });
        assert((s1.text_buf + concat_all(dpre)) + ds.last() =~= s1.text_buf + concat_all(ds));
        assert(run_state(s1, evs) =~= (TranslatorView { text_buf: s1.text_buf + concat_all(ds), ..s1 }));
        assert(run_outputs(s1, evs) =~= text_delta_outputs(index, dpre) + seq![
            StreamEventView::TextDelta { index, delta: ds.last() },
        ]);
        assert(text_delta_outputs(index, dpre) + seq![
            StreamEventView::TextDelta { index, delta: ds.last() },
        ] =~= text_delta_outputs(index, ds));
    }
}

/// Feeding input deltas appends their concatenation to the tool input
/// buffer, emits exactly the matching delta events, and nothing else.
proof fn lemma_input_deltas_run(s1: TranslatorView, index: usize, ds: Seq<Seq<char>>)
    ensures
        run_state(s1, input_delta_events(index, ds)) == (TranslatorView {
            tool_input: s1.tool_input + concat_all(ds),
            ..s1
        }),
        run_outputs(s1, input_delta_events(index, ds)) =~= input_delta_outputs(index, ds),
    decreases ds.len(),
{
    let evs = input_delta_events(index, ds);
    if ds.len() == 0 {
        assert(evs.len() == 0);
        assert(s1.tool_input + concat_all(ds) =~= s1.tool_input);
        assert(run_state(s1, evs) =~= (TranslatorView {
            tool_input: s1.tool_input + concat_all(ds),
            ..s1
        }));
    } else {
        let dpre = ds.drop_last();
        assert(evs.drop_last() =~= input_delta_events(index, dpre));
        lemma_input_deltas_run(s1, index, dpre);
        assert(evs.last() == BackendEventView::ContentBlockDelta {
            index,
            delta: BlockDeltaView::InputJson(ds.last()),
        });
        assert((s1.tool_input + concat_all(dpre)) + ds.last() =~= s1.tool_input + concat_all(ds));
        assert(run_state(s1, evs) =~= (TranslatorView {
            tool_input: s1.tool_input + concat_all(ds),
            ..s1
        }));
        assert(run_outputs(s1, evs) =~= input_delta_outputs(index, dpre) + seq![
            StreamEventView::ToolInputDelta { index, delta: ds.last() },
        ]);
        assert(input_delta_outputs(index, dpre) + seq![
            StreamEventView::ToolInputDelta { index, delta: ds.last() },
        ] =~= input_delta_outputs(index, ds));
    }
}

/// Law (round trip, text): over one text block — start, any deltas,
/// stop — the emitted deltas are exactly the fed deltas, and the
/// finalized block's text is their concatenation in emission order.
pub proof fn lemma_text_block_round_trip(s: TranslatorView, index: usize, ds: Seq<Seq<char>>)
    requires
        s.tool_id.len() == 0,
    ensures
        ({
            let evs = seq![
                BackendEventView::ContentBlockStart { index, open: BlockOpenView::Text },
            ] + text_delta_events(index, ds) + seq![BackendEventView::ContentBlockStop { index }];
            run_outputs(s, evs) =~= seq![StreamEventView::TextStart { index }]
                + text_delta_outputs(index, ds) + seq![
                StreamEventView::ContentBlockComplete {
                    index,
                    block: ContentBlockView::Text(concat_all(ds)),
                },
            ]
        }),
{
    let start = seq![BackendEventView::ContentBlockStart { index, open: BlockOpenView::Text }];
    let stop = seq![BackendEventView::ContentBlockStop { index }];
    let mid = text_delta_events(index, ds);
    let evs = start + mid + stop;
    lemma_run_single(s, BackendEventView::ContentBlockStart { index, open: BlockOpenView::Text });
    let s1 = step_state(s, BackendEventView::ContentBlockStart { index, open: BlockOpenView::Text });
    assert(run_state(s, start) == s1);
    assert(s1 == (TranslatorView { text_buf: Seq::empty(), ..s }));
    lemma_text_deltas_run(s1, index, ds);
    let s2 = run_state(s1, mid);
    assert(s2.text_buf =~= concat_all(ds));
    assert(s2.tool_id.len() == 0);
    assert(finalized_block(s2) == ContentBlockView::Text(s2.text_buf));
    lemma_run_state_concat(s, start, mid);
    lemma_run_outputs_concat(s, start + mid, stop);
    assert(evs =~= (start + mid) + stop);
    lemma_run_outputs_concat(s, start, mid);
    assert(run_outputs(s, start) =~= seq![StreamEventView::TextStart { index }]);
    assert(run_state(s, start + mid) == s2);
    lemma_run_single(s2, BackendEventView::ContentBlockStop { index });
    assert(run_outputs(s2, stop) =~= seq![
        StreamEventView::ContentBlockComplete {
            index,
            block: ContentBlockView::Text(concat_all(ds)),
        },
    ]);
}

/// Law (round trip, tool input): over one tool invocation block, the
/// emitted input deltas are exactly the fed deltas; the finalized block
/// keeps the id and name, and its input is the raw concatenation when
/// that parses as JSON and the null placeholder when it does not.
pub proof fn lemma_tool_block_round_trip(
    s: TranslatorView,
    index: usize,
    id: Seq<char>,
    name: Seq<char>,
    ds: Seq<Seq<char>>,
)
    requires
        id.len() > 0,
    ensures
        ({
            let evs = seq![
                BackendEventView::ContentBlockStart {
                    index,
                    open: BlockOpenView::ToolUse { id, name },
                },
            ] + input_delta_events(index, ds) + seq![BackendEventView::ContentBlockStop { index }];
            run_outputs(s, evs) =~= seq![StreamEventView::ToolUseStart { index, id, name }]
                + input_delta_outputs(index, ds) + seq![
                StreamEventView::ContentBlockComplete {
                    index,
                    block: ContentBlockView::ToolUse(ToolUseBlockView {
                        id,
                        name,
                        input: if json_parses(concat_all(ds)) {
                            ToolInputView::Json(concat_all(ds))
                        } else {
                            ToolInputView::Null
                        },
                    }),
                },
            ]
        }),
{
    let start = seq![
        BackendEventView::ContentBlockStart { index, open: BlockOpenView::ToolUse { id, name } },
    ];
    let stop = seq![BackendEventView::ContentBlockStop { index }];
    let mid = input_delta_events(index, ds);
    let evs = start + mid + stop;
    lemma_run_single(
        s,
        BackendEventView::ContentBlockStart { index, open: BlockOpenView::ToolUse { id, name } },
    );
    let s1 = step_state(
        s,
        BackendEventView::ContentBlockStart { index, open: BlockOpenView::ToolUse { id, name } },
    );
    assert(run_state(s, start) == s1);
    assert(s1 == (TranslatorView { tool_id: id, tool_name: name, tool_input: Seq::empty(), ..s }));
    lemma_input_deltas_run(s1, index, ds);
    let s2 = run_state(s1, mid);
    assert(s2.tool_input =~= concat_all(ds));
    assert(s2.tool_id == id);
    assert(s2.tool_id.len() > 0);
    lemma_run_state_concat(s, start, mid);
    lemma_run_outputs_concat(s, start + mid, stop);
    assert(evs =~= (start + mid) + stop);
    lemma_run_outputs_concat(s, start, mid);
    assert(run_outputs(s, start) =~= seq![StreamEventView::ToolUseStart { index, id, name }]);
    assert(run_state(s, start + mid) == s2);
    lemma_run_single(s2, BackendEventView::ContentBlockStop { index });
    assert(run_outputs(s2, stop) =~= seq![
        StreamEventView::ContentBlockComplete { index, block: finalized_block(s2) },
    ]);
}

/// Law (malformed input): when an open tool invocation's accumulated
/// input does not parse as JSON, finalization still succeeds — the
/// emitted block carries the null placeholder, the same for every
/// unparsable buffer, and the id and name are kept.
pub proof fn lemma_malformed_input_placeholder(s: TranslatorView, index: usize)
    requires
        s.tool_id.len() > 0,
        !json_parses(s.tool_input),
    ensures
        step_output(s, BackendEventView::ContentBlockStop { index }) == Some(
            StreamEventView::ContentBlockComplete {
                index,
                block: ContentBlockView::ToolUse(ToolUseBlockView {
                    id: s.tool_id,
                    name: s.tool_name,
                    input: ToolInputView::Null,
                }),
            },
        ),
{
}

} // verus!
