//! The content model: messages, content blocks and stop reasons.
//!
//! Every composite type has a deep view into mathematical values
//! (`Seq<char>` for text, `Seq<u8>` for bytes), and the contracts of the
//! translator and the turn loop speak only of those views.
//!
//! Structured values (a tool invocation's input, a JSON result payload)
//! are carried as raw JSON text: the engine never looks inside them, it
//! only accumulates, validates and hands them on.

use vstd::prelude::*;

verus! {

/// The sender of a message.
#[derive(Clone, Copy, Debug, PartialEq, Eq, Structural)]
pub enum Role {
    User,
    Assistant,
}

impl Role {
    /// The lower-case wire name of this role.
    pub open spec fn as_text_spec(&self) -> Seq<char> {
        match self {
            Role::User => "user"@,
            Role::Assistant => "assistant"@,
        }
    }

    /// Render this role as text.
    pub fn as_text(&self) -> (r: String)
        ensures
            r@ == self.as_text_spec(),
    {
        match self {
            Role::User => "user".to_owned(),
            Role::Assistant => "assistant".to_owned(),
        }
    }
}

/// A plain text unit.
#[derive(Debug, PartialEq)]
pub struct TextBlock(pub String);

impl DeepView for TextBlock {
    type V = Seq<char>;

    open spec fn deep_view(&self) -> Seq<char> {
        self.0.view()
    }
}

/// A structured value, carried as raw JSON text.
#[derive(Debug, PartialEq)]
pub struct JsonBlock(pub String);

impl DeepView for JsonBlock {
    type V = Seq<char>;

    open spec fn deep_view(&self) -> Seq<char> {
        self.0.view()
    }
}

/// The input a model supplied for one tool invocation.
#[derive(Debug, PartialEq)]
pub enum ToolInput {
    /// Raw JSON text that parsed as a structured value.
    Json(String),
    /// The placeholder substituted when accumulated input did not parse.
    Null,
}

/// Deep view of [`ToolInput`].
#[verifier::ext_equal]
pub enum ToolInputView {
    Json(Seq<char>),
    Null,
}

impl DeepView for ToolInput {
    type V = ToolInputView;

    open spec fn deep_view(&self) -> ToolInputView {
        match self {
            ToolInput::Json(s) => ToolInputView::Json(s.view()),
            ToolInput::Null => ToolInputView::Null,
        }
    }
}

/// A model's request to run one tool.
#[derive(Debug, PartialEq)]
pub struct ToolUseBlock {
    /// Unique identifier for this tool use instance.
    pub id: String,
    /// The name of the tool to execute.
    pub name: String,
    /// The input parameters for the tool.
    pub input: ToolInput,
}

/// Deep view of [`ToolUseBlock`].
#[verifier::ext_equal]
pub struct ToolUseBlockView {
    pub id: Seq<char>,
    pub name: Seq<char>,
    pub input: ToolInputView,
}

impl DeepView for ToolUseBlock {
    type V = ToolUseBlockView;

    open spec fn deep_view(&self) -> ToolUseBlockView {
        ToolUseBlockView { id: self.id.view(), name: self.name.view(), input: self.input.deep_view() }
    }
}

/// One unit of content returned by a tool.
#[derive(Debug, PartialEq)]
pub enum ToolResultContent {
    Text(TextBlock),
    Json(JsonBlock),
}

/// Deep view of [`ToolResultContent`].
#[verifier::ext_equal]
pub enum ToolResultContentView {
    Text(Seq<char>),
    Json(Seq<char>),
}

impl DeepView for ToolResultContent {
    type V = ToolResultContentView;

    open spec fn deep_view(&self) -> ToolResultContentView {
        match self {
            ToolResultContent::Text(t) => ToolResultContentView::Text(t.0.view()),
            ToolResultContent::Json(j) => ToolResultContentView::Json(j.0.view()),
        }
    }
}

/// What a tool invocation produced: success and failure both carry a
/// sequence of result content, told apart by the tag alone.
pub type ToolResult = Result<Vec<ToolResultContent>, Vec<ToolResultContent>>;

/// Relies on the std `Clone` impl for `Result`, which clones whichever
/// side is present; vstd does not specify it, and the derived `Clone` of
/// [`ToolResultBlock`] calls it.
pub assume_specification<T: Clone, E: Clone>[ <Result<T, E> as Clone>::clone ](
    r: &Result<T, E>,
) -> (res: Result<T, E>)
    ensures
        res is Ok <==> r is Ok,
        res is Ok ==> vstd::prelude::cloned::<T>(r->Ok_0, res->Ok_0),
        res is Err ==> vstd::prelude::cloned::<E>(r->Err_0, res->Err_0),
;

/// The outcome of one tool invocation, tied back to its request.
#[derive(Debug, PartialEq)]
pub struct ToolResultBlock {
    /// The id of the tool use this result corresponds to.
    pub id: String,
    /// The content returned by the tool.
    pub content: ToolResult,
}

/// Deep view of [`ToolResultBlock`].
#[verifier::ext_equal]
pub struct ToolResultBlockView {
    pub id: Seq<char>,
    pub content: Result<Seq<ToolResultContentView>, Seq<ToolResultContentView>>,
}

impl DeepView for ToolResultBlock {
    type V = ToolResultBlockView;

    open spec fn deep_view(&self) -> ToolResultBlockView {
        ToolResultBlockView {
            id: self.id.view(),
            content: match &self.content {
                Ok(v) => Ok(v.deep_view()),
                Err(v) => Err(v.deep_view()),
            },
        }
    }
}

/// A reasoning trace emitted by the model.
#[derive(Debug, PartialEq)]
pub struct ReasoningBlock {
    /// The text content of the reasoning process.
    pub text: String,
    /// A cryptographic signature for verification purposes.
    pub signature: String,
    /// The redacted content of the reasoning process.
    pub redacted: Vec<u8>,
}

/// Deep view of [`ReasoningBlock`].
#[verifier::ext_equal]
pub struct ReasoningBlockView {
    pub text: Seq<char>,
    pub signature: Seq<char>,
    pub redacted: Seq<u8>,
}

impl DeepView for ReasoningBlock {
    type V = ReasoningBlockView;

    open spec fn deep_view(&self) -> ReasoningBlockView {
        ReasoningBlockView {
            text: self.text.view(),
            signature: self.signature.view(),
            redacted: self.redacted.view(),
        }
    }
}

/// A cache point marker.
#[derive(Clone, Copy, Debug, PartialEq, Eq, Structural)]
pub enum CachePointBlock {
    Default,
}

/// Image format for image content blocks.
#[derive(Clone, Copy, Debug, PartialEq, Eq, Structural)]
pub enum ImageFormat {
    Png,
    Jpeg,
    Gif,
    Webp,
}

/// Source of image data.
#[derive(Debug, PartialEq)]
pub enum ImageSource {
    Bytes(Vec<u8>),
    Url(String),
}

/// Deep view of [`ImageSource`].
#[verifier::ext_equal]
pub enum ImageSourceView {
    Bytes(Seq<u8>),
    Url(Seq<char>),
}

impl DeepView for ImageSource {
    type V = ImageSourceView;

    open spec fn deep_view(&self) -> ImageSourceView {
        match self {
            ImageSource::Bytes(b) => ImageSourceView::Bytes(b.view()),
            ImageSource::Url(u) => ImageSourceView::Url(u.view()),
        }
    }
}

/// An image unit.
#[derive(Debug, PartialEq)]
pub struct ImageBlock {
    /// The format of the image.
    pub format: ImageFormat,
    /// The source of the image data.
    pub source: ImageSource,
}

/// Deep view of [`ImageBlock`].
#[verifier::ext_equal]
pub struct ImageBlockView {
    pub format: ImageFormat,
    pub source: ImageSourceView,
}

impl DeepView for ImageBlock {
    type V = ImageBlockView;

    open spec fn deep_view(&self) -> ImageBlockView {
        ImageBlockView { format: self.format, source: self.source.deep_view() }
    }
}

/// Video format for video content blocks.
#[derive(Clone, Copy, Debug, PartialEq, Eq, Structural)]
pub enum VideoFormat {
    Mkv,
    Mov,
    Mp4,
    Webm,
    Flv,
    Mpeg,
    Wmv,
    Tgp,
}

/// Source of video data.
#[derive(Debug, PartialEq)]
pub enum VideoSource {
    Bytes(Vec<u8>),
}

/// Deep view of [`VideoSource`].
#[verifier::ext_equal]
pub enum VideoSourceView {
    Bytes(Seq<u8>),
}

impl DeepView for VideoSource {
    type V = VideoSourceView;

    open spec fn deep_view(&self) -> VideoSourceView {
        match self {
            VideoSource::Bytes(b) => VideoSourceView::Bytes(b.view()),
        }
    }
}

/// A video unit.
#[derive(Debug, PartialEq)]
pub struct VideoBlock {
    /// The format of the video.
    pub format: VideoFormat,
    /// The source of the video data.
    pub source: VideoSource,
}

/// Deep view of [`VideoBlock`].
#[verifier::ext_equal]
pub struct VideoBlockView {
    pub format: VideoFormat,
    pub source: VideoSourceView,
}

impl DeepView for VideoBlock {
    type V = VideoBlockView;

    open spec fn deep_view(&self) -> VideoBlockView {
        VideoBlockView { format: self.format, source: self.source.deep_view() }
    }
}

/// Document format for document content blocks.
#[derive(Clone, Copy, Debug, PartialEq, Eq, Structural)]
pub enum DocumentFormat {
    Pdf,
    Csv,
    Doc,
    Docx,
    Xls,
    Xlsx,
    Html,
    Txt,
    Md,
    Json,
    Xml,
}

/// Source of document data.
#[derive(Debug, PartialEq)]
pub enum DocumentSource {
    Bytes(Vec<u8>),
    Text(String),
    Structured(Vec<TextBlock>),
    Url(String),
}

/// Deep view of [`DocumentSource`].
#[verifier::ext_equal]
pub enum DocumentSourceView {
    Bytes(Seq<u8>),
    Text(Seq<char>),
    Structured(Seq<Seq<char>>),
    Url(Seq<char>),
}

impl DeepView for DocumentSource {
    type V = DocumentSourceView;

    open spec fn deep_view(&self) -> DocumentSourceView {
        match self {
            DocumentSource::Bytes(b) => DocumentSourceView::Bytes(b.view()),
            DocumentSource::Text(t) => DocumentSourceView::Text(t.view()),
            DocumentSource::Structured(v) => DocumentSourceView::Structured(v.deep_view()),
            DocumentSource::Url(u) => DocumentSourceView::Url(u.view()),
        }
    }
}

/// A document unit.
#[derive(Debug, PartialEq)]
pub struct DocumentBlock {
    /// The name of the document.
    pub name: String,
    /// The format of the document.
    pub format: DocumentFormat,
    /// The source of the document data.
    pub source: DocumentSource,
    /// Whether to include citations when using the document.
    pub citations: bool,
    /// Context information for the document.
    pub context: Option<String>,
}

/// Deep view of [`DocumentBlock`].
#[verifier::ext_equal]
pub struct DocumentBlockView {
    pub name: Seq<char>,
    pub format: DocumentFormat,
    pub source: DocumentSourceView,
    pub citations: bool,
    pub context: Option<Seq<char>>,
}

impl DeepView for DocumentBlock {
    type V = DocumentBlockView;

    open spec fn deep_view(&self) -> DocumentBlockView {
        DocumentBlockView {
            name: self.name.view(),
            format: self.format,
            source: self.source.deep_view(),
            citations: self.citations,
            context: self.context.deep_view(),
        }
    }
}

/// Qualifier for guard content blocks.
#[derive(Clone, Copy, Debug, PartialEq, Eq, Structural)]
pub enum GuardQualifier {
    GroundingSource,
    Query,
    GuardContent,
}

impl DeepView for GuardQualifier {
    type V = GuardQualifier;

    open spec fn deep_view(&self) -> GuardQualifier {
        *self
    }
}

/// Text content evaluated by guardrails.
#[derive(Debug, PartialEq)]
pub struct GuardText {
    /// Qualifiers that specify how this content is evaluated.
    pub qualifiers: Vec<GuardQualifier>,
    /// The text content evaluated.
    pub text: String,
}

/// Deep view of [`GuardText`].
#[verifier::ext_equal]
pub struct GuardTextView {
    pub qualifiers: Seq<GuardQualifier>,
    pub text: Seq<char>,
}

impl DeepView for GuardText {
    type V = GuardTextView;

    open spec fn deep_view(&self) -> GuardTextView {
        GuardTextView { qualifiers: self.qualifiers.deep_view(), text: self.text.view() }
    }
}

/// Image format accepted by guardrails.
#[derive(Clone, Copy, Debug, PartialEq, Eq, Structural)]
pub enum GuardImageFormat {
    Png,
    Jpeg,
}

/// Image content evaluated by guardrails.
#[derive(Debug, PartialEq)]
pub struct GuardImage {
    /// The format of the image.
    pub format: GuardImageFormat,
    /// The image source.
    pub source: Vec<u8>,
}

/// Deep view of [`GuardImage`].
#[verifier::ext_equal]
pub struct GuardImageView {
    pub format: GuardImageFormat,
    pub source: Seq<u8>,
}

impl DeepView for GuardImage {
    type V = GuardImageView;

    open spec fn deep_view(&self) -> GuardImageView {
        GuardImageView { format: self.format, source: self.source.view() }
    }
}

/// Content evaluated by guardrails.
#[derive(Debug, PartialEq)]
pub enum GuardBlock {
    Text(GuardText),
    Image(GuardImage),
}

/// Deep view of [`GuardBlock`].
#[verifier::ext_equal]
pub enum GuardBlockView {
    Text(GuardTextView),
    Image(GuardImageView),
}

impl DeepView for GuardBlock {
    type V = GuardBlockView;

    open spec fn deep_view(&self) -> GuardBlockView {
        match self {
            GuardBlock::Text(t) => GuardBlockView::Text(t.deep_view()),
            GuardBlock::Image(i) => GuardBlockView::Image(i.deep_view()),
        }
    }
}

/// One typed unit of message content.
#[derive(Debug, PartialEq)]
pub enum ContentBlock {
    Text(TextBlock),
    ToolUse(ToolUseBlock),
    ToolResult(ToolResultBlock),
    Reasoning(ReasoningBlock),
    CachePoint(CachePointBlock),
    Image(ImageBlock),
    Video(VideoBlock),
    Document(DocumentBlock),
    Guard(GuardBlock),
}

/// Deep view of [`ContentBlock`].
#[verifier::ext_equal]
pub enum ContentBlockView {
    Text(Seq<char>),
    ToolUse(ToolUseBlockView),
    ToolResult(ToolResultBlockView),
    Reasoning(ReasoningBlockView),
    CachePoint(CachePointBlock),
    Image(ImageBlockView),
    Video(VideoBlockView),
    Document(DocumentBlockView),
    Guard(GuardBlockView),
}

impl DeepView for ContentBlock {
    type V = ContentBlockView;

    open spec fn deep_view(&self) -> ContentBlockView {
        match self {
            ContentBlock::Text(t) => ContentBlockView::Text(t.deep_view()),
            ContentBlock::ToolUse(t) => ContentBlockView::ToolUse(t.deep_view()),
            ContentBlock::ToolResult(t) => ContentBlockView::ToolResult(t.deep_view()),
            ContentBlock::Reasoning(r) => ContentBlockView::Reasoning(r.deep_view()),
            ContentBlock::CachePoint(c) => ContentBlockView::CachePoint(*c),
            ContentBlock::Image(i) => ContentBlockView::Image(i.deep_view()),
            ContentBlock::Video(v) => ContentBlockView::Video(v.deep_view()),
            ContentBlock::Document(d) => ContentBlockView::Document(d.deep_view()),
            ContentBlock::Guard(g) => ContentBlockView::Guard(g.deep_view()),
        }
    }
}

/// Reason for stopping generation.
#[derive(Clone, Copy, Debug, PartialEq, Eq, Structural)]
pub enum StopReason {
    /// Content was filtered by safety mechanisms.
    ContentFiltered,
    /// The model ended its turn.
    EndTurn,
    /// A guardrail policy stopped generation.
    GuardrailIntervened,
    /// The maximum token limit was reached.
    MaxTokens,
    /// A custom stop sequence was encountered.
    StopSequence,
    /// A tool was requested by the model.
    ToolUse,
    /// The number of tokens exceeded the context window.
    ContextWindowExceeded,
}

/// Content block for system prompts.
#[derive(Debug, PartialEq)]
pub enum SystemPromptBlock {
    Text(TextBlock),
    CachePoint(CachePointBlock),
    Guard(GuardBlock),
}

/// Deep view of [`SystemPromptBlock`].
#[verifier::ext_equal]
pub enum SystemPromptBlockView {
    Text(Seq<char>),
    CachePoint(CachePointBlock),
    Guard(GuardBlockView),
}

impl DeepView for SystemPromptBlock {
    type V = SystemPromptBlockView;

    open spec fn deep_view(&self) -> SystemPromptBlockView {
        match self {
            SystemPromptBlock::Text(t) => SystemPromptBlockView::Text(t.deep_view()),
            SystemPromptBlock::CachePoint(c) => SystemPromptBlockView::CachePoint(*c),
            SystemPromptBlock::Guard(g) => SystemPromptBlockView::Guard(g.deep_view()),
        }
    }
}

/// The system prompt supplied to the model provider.
#[derive(Debug, PartialEq)]
pub enum SystemPrompt {
    Text(String),
    Structured(Vec<SystemPromptBlock>),
}

/// Deep view of [`SystemPrompt`].
#[verifier::ext_equal]
pub enum SystemPromptView {
    Text(Seq<char>),
    Structured(Seq<SystemPromptBlockView>),
}

impl DeepView for SystemPrompt {
    type V = SystemPromptView;

    open spec fn deep_view(&self) -> SystemPromptView {
        match self {
            SystemPrompt::Text(t) => SystemPromptView::Text(t.view()),
            SystemPrompt::Structured(v) => SystemPromptView::Structured(v.deep_view()),
        }
    }
}

/// The texts of the text blocks of a structured prompt, in order.
pub open spec fn prompt_text_parts(blocks: Seq<SystemPromptBlockView>) -> Seq<Seq<char>>
    decreases blocks.len(),
{
    if blocks.len() == 0 {
        Seq::empty()
    } else {
        let rest = prompt_text_parts(blocks.drop_last());
        match blocks.last() {
            SystemPromptBlockView::Text(t) => rest.push(t),
            _ => rest,
        }
    }
}

/// Pieces joined with a newline between each pair.
pub open spec fn join_lines(parts: Seq<Seq<char>>) -> Seq<char>
    decreases parts.len(),
{
    if parts.len() == 0 {
        Seq::empty()
    } else if parts.len() == 1 {
        parts[0]
    } else {
        join_lines(parts.drop_last()) + seq!['\n'] + parts.last()
    }
}

/// What a prompt reads as plain text: its own text, or the texts of a
/// structured prompt's text blocks joined by newlines, other block
/// kinds skipped.
pub open spec fn prompt_text(p: SystemPromptView) -> Seq<char> {
    match p {
        SystemPromptView::Text(t) => t,
        SystemPromptView::Structured(blocks) => join_lines(prompt_text_parts(blocks)),
    }
}

impl SystemPrompt {
    /// A plain-text system prompt.
    pub fn new(text: &str) -> (r: Self)
        ensures
            r.deep_view() == SystemPromptView::Text(text.view()),
    {
        SystemPrompt::Text(text.to_owned())
    }

    /// Render this prompt as the single text a text-only transport
    /// sends: text-block contents joined by newlines.
    pub fn to_text(&self) -> (r: String)
        ensures
            r.view() == prompt_text(self.deep_view()),
    {
        match self {
            SystemPrompt::Text(t) => t.clone(),
            SystemPrompt::Structured(blocks) => {
                let ghost bv = blocks.deep_view();
                let mut out = String::new();
                let mut any = false;
                let mut i: usize = 0;
                proof {
                    assert(bv.take(0) =~= Seq::<SystemPromptBlockView>::empty());
                    assert(out.view() =~= join_lines(prompt_text_parts(bv.take(0))));
                }
                while i < blocks.len()
                    invariant
                        0 <= i <= blocks@.len(),
                        bv == blocks.deep_view(),
                        bv.len() == blocks@.len(),
                        any <==> prompt_text_parts(bv.take(i as int)).len() > 0,
                        out.view() == join_lines(prompt_text_parts(bv.take(i as int))),
                    decreases blocks@.len() - i,
                {
                    proof {
                        assert(bv.take(i + 1).drop_last() =~= bv.take(i as int));
                        assert(bv.take(i + 1).last() == bv[i as int]);
                        assert(bv[i as int] == blocks@[i as int].deep_view());
                    }
                    match &blocks[i] {
                        SystemPromptBlock::Text(t) => {
                            let ghost parts = prompt_text_parts(bv.take(i as int));
                            if any {
                                out.append("\n");
                                proof {
                                    reveal_strlit("\n");
                                    assert("\n"@ =~= seq!['\n']);
                                }
                            }
                            out.append(t.0.as_str());
                            any = true;
                            proof {
                                let parts1 = prompt_text_parts(bv.take(i + 1));
                                assert(parts1 =~= parts.push(t.deep_view()));
                                if parts.len() == 0 {
                                    assert(join_lines(parts1) =~= t.deep_view());
                                } else {
                                    assert(parts1.drop_last() =~= parts);
                                    assert(join_lines(parts1) =~= join_lines(parts) + seq!['\n']
                                        + t.deep_view());
                                }
                                assert(out.view() =~= join_lines(parts1));
                            }
                        },
                        _ => {
                            proof {
                                assert(prompt_text_parts(bv.take(i + 1)) =~= prompt_text_parts(
                                    bv.take(i as int),
                                ));
                            }
                        },
                    }
                    i = i + 1;
                }
                proof {
                    assert(bv.take(bv.len() as int) =~= bv);
                }
                out
            },
        }
    }
}

/// One message of the conversation.
#[derive(Debug, PartialEq)]
pub struct Message {
    /// The role of the message sender.
    pub role: Role,
    /// The message content as a sequence of content blocks.
    pub content: Vec<ContentBlock>,
}

/// Deep view of [`Message`].
#[verifier::ext_equal]
pub struct MessageView {
    pub role: Role,
    pub content: Seq<ContentBlockView>,
}

impl DeepView for Message {
    type V = MessageView;

    open spec fn deep_view(&self) -> MessageView {
        MessageView { role: self.role, content: self.content.deep_view() }
    }
}

impl Message {
    /// A user message holding a single text block.
    pub fn new_user(text: &str) -> (r: Self)
        ensures
            r.deep_view() == (MessageView {
                role: Role::User,
                content: seq![ContentBlockView::Text(text.view())],
            }),
    {
        let mut content: Vec<ContentBlock> = Vec::new();
        content.push(ContentBlock::Text(TextBlock(text.to_owned())));
        let r = Message { role: Role::User, content };
        proof {
            assert(r.deep_view().content =~= seq![ContentBlockView::Text(text.view())]);
        }
        r
    }
}

impl Clone for TextBlock {
    /// A copy with the same view.
    fn clone(&self) -> (res: Self)
        ensures
            res.deep_view() == self.deep_view(),
    {
        TextBlock(self.0.clone())
    }
}

impl Clone for JsonBlock {
    /// A copy with the same view.
    fn clone(&self) -> (res: Self)
        ensures
            res.deep_view() == self.deep_view(),
    {
        JsonBlock(self.0.clone())
    }
}

impl Clone for ToolInput {
    /// A copy with the same view.
    fn clone(&self) -> (res: Self)
        ensures
            res.deep_view() == self.deep_view(),
    {
        match self {
            ToolInput::Json(s) => ToolInput::Json(s.clone()),
            ToolInput::Null => ToolInput::Null,
        }
    }
}

impl Clone for ToolUseBlock {
    /// A copy with the same view.
    fn clone(&self) -> (res: Self)
        ensures
            res.deep_view() == self.deep_view(),
    {
        ToolUseBlock { id: self.id.clone(), name: self.name.clone(), input: self.input.clone() }
    }
}

impl Clone for ToolResultContent {
    /// A copy with the same view.
    fn clone(&self) -> (res: Self)
        ensures
            res.deep_view() == self.deep_view(),
    {
        match self {
            ToolResultContent::Text(t) => ToolResultContent::Text(t.clone()),
            ToolResultContent::Json(j) => ToolResultContent::Json(j.clone()),
        }
    }
}

/// A copy of a result-content sequence with the same view.
pub fn clone_tool_result_contents(v: &Vec<ToolResultContent>) -> (res: Vec<ToolResultContent>)
    ensures
        res.deep_view() == v.deep_view(),
{
    let res = v.clone();
    proof {
        assert forall|i: int| 0 <= i < res.deep_view().len() implies res.deep_view()[i]
            == v.deep_view()[i] by {
            assert(cloned::<ToolResultContent>(v@[i], res@[i]));
        }
        assert(res.deep_view() =~= v.deep_view());
    }
    res
}

impl Clone for ToolResultBlock {
    /// A copy with the same view.
    fn clone(&self) -> (res: Self)
        ensures
            res.deep_view() == self.deep_view(),
    {
        ToolResultBlock {
            id: self.id.clone(),
            content: match &self.content {
                Ok(v) => Ok(clone_tool_result_contents(v)),
                Err(v) => Err(clone_tool_result_contents(v)),
            },
        }
    }
}

impl Clone for ReasoningBlock {
    /// A copy with the same view.
    fn clone(&self) -> (res: Self)
        ensures
            res.deep_view() == self.deep_view(),
    {
        let redacted = self.redacted.clone();
        proof {
            assert forall|i: int| 0 <= i < redacted@.len() implies redacted@[i]
                == self.redacted@[i] by {
                assert(cloned::<u8>(self.redacted@[i], redacted@[i]));
            }
            assert(redacted@ =~= self.redacted@);
        }
        ReasoningBlock {
            text: self.text.clone(),
            signature: self.signature.clone(),
            redacted,
        }
    }
}

/// A copy of a byte vector with the same view.
pub fn clone_bytes(v: &Vec<u8>) -> (res: Vec<u8>)
    ensures
        res.view() == v.view(),
{
    let res = v.clone();
    proof {
        assert forall|i: int| 0 <= i < res@.len() implies res@[i] == v@[i] by {
            assert(cloned::<u8>(v@[i], res@[i]));
        }
        assert(res@ =~= v@);
    }
    res
}

impl Clone for ImageSource {
    /// A copy with the same view.
    fn clone(&self) -> (res: Self)
        ensures
            res.deep_view() == self.deep_view(),
    {
        match self {
            ImageSource::Bytes(b) => ImageSource::Bytes(clone_bytes(b)),
            ImageSource::Url(u) => ImageSource::Url(u.clone()),
        }
    }
}

impl Clone for ImageBlock {
    /// A copy with the same view.
    fn clone(&self) -> (res: Self)
        ensures
            res.deep_view() == self.deep_view(),
    {
        ImageBlock { format: self.format, source: self.source.clone() }
    }
}

impl Clone for VideoSource {
    /// A copy with the same view.
    fn clone(&self) -> (res: Self)
        ensures
            res.deep_view() == self.deep_view(),
    {
        match self {
            VideoSource::Bytes(b) => VideoSource::Bytes(clone_bytes(b)),
        }
    }
}

impl Clone for VideoBlock {
    /// A copy with the same view.
    fn clone(&self) -> (res: Self)
        ensures
            res.deep_view() == self.deep_view(),
    {
        VideoBlock { format: self.format, source: self.source.clone() }
    }
}

/// A copy of a text-block sequence with the same view.
pub fn clone_text_blocks(v: &Vec<TextBlock>) -> (res: Vec<TextBlock>)
    ensures
        res.deep_view() == v.deep_view(),
{
    let res = v.clone();
    proof {
        assert forall|i: int| 0 <= i < res.deep_view().len() implies res.deep_view()[i]
            == v.deep_view()[i] by {
            assert(cloned::<TextBlock>(v@[i], res@[i]));
        }
        assert(res.deep_view() =~= v.deep_view());
    }
    res
}

impl Clone for DocumentSource {
    /// A copy with the same view.
    fn clone(&self) -> (res: Self)
        ensures
            res.deep_view() == self.deep_view(),
    {
        match self {
            DocumentSource::Bytes(b) => DocumentSource::Bytes(clone_bytes(b)),
            DocumentSource::Text(t) => DocumentSource::Text(t.clone()),
            DocumentSource::Structured(v) => DocumentSource::Structured(clone_text_blocks(v)),
            DocumentSource::Url(u) => DocumentSource::Url(u.clone()),
        }
    }
}

impl Clone for DocumentBlock {
    /// A copy with the same view.
    fn clone(&self) -> (res: Self)
        ensures
            res.deep_view() == self.deep_view(),
    {
        DocumentBlock {
            name: self.name.clone(),
            format: self.format,
            source: self.source.clone(),
            citations: self.citations,
            context: self.context.clone(),
        }
    }
}

impl Clone for GuardText {
    /// A copy with the same view.
    fn clone(&self) -> (res: Self)
        ensures
            res.deep_view() == self.deep_view(),
    {
        let qualifiers = self.qualifiers.clone();
        proof {
            assert forall|i: int| 0 <= i < qualifiers@.len() implies qualifiers@[i]
                == self.qualifiers@[i] by {
                assert(cloned::<GuardQualifier>(self.qualifiers@[i], qualifiers@[i]));
            }
            assert(qualifiers.deep_view() =~= self.qualifiers.deep_view());
        }
        GuardText { qualifiers, text: self.text.clone() }
    }
}

impl Clone for GuardImage {
    /// A copy with the same view.
    fn clone(&self) -> (res: Self)
        ensures
            res.deep_view() == self.deep_view(),
    {
        GuardImage { format: self.format, source: clone_bytes(&self.source) }
    }
}

impl Clone for GuardBlock {
    /// A copy with the same view.
    fn clone(&self) -> (res: Self)
        ensures
            res.deep_view() == self.deep_view(),
    {
        match self {
            GuardBlock::Text(t) => GuardBlock::Text(t.clone()),
            GuardBlock::Image(i) => GuardBlock::Image(i.clone()),
        }
    }
}

impl Clone for ContentBlock {
    /// A copy with the same view.
    fn clone(&self) -> (res: Self)
        ensures
            res.deep_view() == self.deep_view(),
    {
        match self {
            ContentBlock::Text(t) => ContentBlock::Text(t.clone()),
            ContentBlock::ToolUse(t) => ContentBlock::ToolUse(t.clone()),
            ContentBlock::ToolResult(t) => ContentBlock::ToolResult(t.clone()),
            ContentBlock::Reasoning(r) => ContentBlock::Reasoning(r.clone()),
            ContentBlock::CachePoint(c) => ContentBlock::CachePoint(*c),
            ContentBlock::Image(i) => ContentBlock::Image(i.clone()),
            ContentBlock::Video(v) => ContentBlock::Video(v.clone()),
            ContentBlock::Document(d) => ContentBlock::Document(d.clone()),
            ContentBlock::Guard(g) => ContentBlock::Guard(g.clone()),
        }
    }
}

/// A copy of a content-block sequence with the same view.
pub fn clone_content_blocks(v: &Vec<ContentBlock>) -> (res: Vec<ContentBlock>)
    ensures
        res.deep_view() == v.deep_view(),
{
    let res = v.clone();
    proof {
        assert forall|i: int| 0 <= i < res.deep_view().len() implies res.deep_view()[i]
            == v.deep_view()[i] by {
            assert(cloned::<ContentBlock>(v@[i], res@[i]));
        }
        assert(res.deep_view() =~= v.deep_view());
    }
    res
}

impl Clone for SystemPromptBlock {
    /// A copy with the same view.
    fn clone(&self) -> (res: Self)
        ensures
            res.deep_view() == self.deep_view(),
    {
        match self {
            SystemPromptBlock::Text(t) => SystemPromptBlock::Text(t.clone()),
            SystemPromptBlock::CachePoint(c) => SystemPromptBlock::CachePoint(*c),
            SystemPromptBlock::Guard(g) => SystemPromptBlock::Guard(g.clone()),
        }
    }
}

impl Clone for SystemPrompt {
    /// A copy with the same view.
    fn clone(&self) -> (res: Self)
        ensures
            res.deep_view() == self.deep_view(),
    {
        match self {
            SystemPrompt::Text(t) => SystemPrompt::Text(t.clone()),
            SystemPrompt::Structured(v) => {
                let blocks = v.clone();
                proof {
                    assert forall|i: int| 0 <= i < blocks.deep_view().len() implies blocks.deep_view()[i]
                        == v.deep_view()[i] by {
                        assert(cloned::<SystemPromptBlock>(v@[i], blocks@[i]));
                    }
                    assert(blocks.deep_view() =~= v.deep_view());
                }
                SystemPrompt::Structured(blocks)
            },
        }
    }
}

impl Clone for Message {
    /// A copy with the same view.
    fn clone(&self) -> (res: Self)
        ensures
            res.deep_view() == self.deep_view(),
    {
        Message { role: self.role, content: clone_content_blocks(&self.content) }
    }
}

/// A copy of a message sequence with the same view.
pub fn clone_messages(v: &Vec<Message>) -> (res: Vec<Message>)
    ensures
        res.deep_view() == v.deep_view(),
{
    let res = v.clone();
    proof {
        assert forall|i: int| 0 <= i < res.deep_view().len() implies res.deep_view()[i]
            == v.deep_view()[i] by {
            assert(cloned::<Message>(v@[i], res@[i]));
        }
        assert(res.deep_view() =~= v.deep_view());
    }
    res
}

} // verus!
