//! Input items, and the content vocabulary each role is allowed.
//!
//! **The role decides the vocabulary.** OpenAI accepts `input_text`, `input_image` and
//! `input_file` inside a developer or user message, and `output_text` and `refusal` inside
//! an assistant one, so a message is a [`Message`] variant carrying *its own* block type.
//!
//! **A breakpoint is not something you can write.** A [`Context`](crate::context::Context)
//! appends blocks without their marks, so the only way to mark a block it holds is through
//! one of its [`BreakpointSlot`](crate::context::BreakpointSlot)s. A [`Refusal`] has no place
//! for one at all, because the API rejects one there.
//!
//! **Content is always a block array, never a bare string.** One shape means one set of
//! bytes.
use vstd::prelude::*;

use crate::json::{no_fields, put, Json, JsonView};
use crate::values::{AssistantPhase, FileDetail, ImageDetail, InputRole};
use crate::views;

verus! {

/// The one value `prompt_cache_breakpoint.mode` accepts.
#[derive(Debug, Clone, Copy, PartialEq, Eq, PartialOrd, Ord, Hash, Structural)]
pub enum BreakpointMode {
    /// A boundary you chose, as opposed to one OpenAI placed implicitly.
    Explicit,
}

impl BreakpointMode {
    /// The string that names this value on the wire.
    pub open spec fn wire(self) -> Seq<char> {
        "explicit"@
    }

    /// The exact string this variant serializes to.
    pub fn as_str(self) -> (s: &'static str)
        ensures
            s@ == self.wire(),
    {
        match self {
            BreakpointMode::Explicit => "explicit",
        }
    }
}

/// A marker saying "a reusable prefix ends exactly here".
///
/// It has no public constructor on purpose: breakpoints are a bounded resource, and the
/// bound is kept by the slots of a [`Context`](crate::context::Context). A mark copied off
/// one block onto another is gone once the other is appended.
#[derive(Debug, Clone, Copy, PartialEq, Eq, Structural)]
pub struct PromptCacheBreakpoint {
    mode: BreakpointMode,
}

/// A breakpoint as it is sent.
pub open spec fn breakpoint_wire() -> JsonView {
    JsonView::Object(seq![("mode"@, JsonView::Text(BreakpointMode::Explicit.wire()))])
}

impl PromptCacheBreakpoint {
    /// Who chose the boundary: the breakpoint's mode.
    pub closed spec fn chosen(self) -> BreakpointMode {
        self.mode
    }

    /// A boundary the caller chose.
    pub(crate) fn explicit() -> (breakpoint: Self)
        ensures
            breakpoint.chosen() == BreakpointMode::Explicit,
    {
        Self { mode: BreakpointMode::Explicit }
    }

    /// The breakpoint as it is sent.
    pub fn to_json(&self) -> (json: Json)
        ensures
            json@ == breakpoint_wire(),
    {
        let mut fields = no_fields();
        put(&mut fields, "mode", Json::text(self.mode.as_str()));
        Json::object(fields)
    }
}

/// A content block, seen as "somewhere a breakpoint may or may not go".
///
/// A block with no site answers `None`, which is how a [`Refusal`] stays out of the budget
/// without a special case anywhere else.
pub trait BreakpointableBlock: Sized {
    /// Whether the block is marked, where it can be.
    spec fn site(&self) -> Option<bool>;

    /// The block's breakpoint, where it has a place for one.
    fn breakpoint_site(&self) -> (site: Option<&Option<PromptCacheBreakpoint>>)
        ensures
            match site {
                Some(held) => self.site() == Some(*held is Some),
                None => self.site() is None,
            },
    ;

    /// Whether a breakpoint can go here.
    fn accepts_breakpoint(&self) -> (r: bool)
        ensures
            r == (self.site() is Some),
    {
        self.breakpoint_site().is_some()
    }

    /// Whether a breakpoint stands here.
    fn has_breakpoint(&self) -> (r: bool)
        ensures
            r == (self.site() == Some(true)),
    {
        match self.breakpoint_site() {
            Some(held) => held.is_some(),
            None => false,
        }
    }
}

/// Where an image comes from. A `file_id` and a URL are alternatives, not two optional
/// fields to keep in sync, so they are variants.
#[derive(Debug, Clone, PartialEq, Eq)]
pub enum ImageSource {
    /// A URL, either fully qualified or a `data:` URL holding base64 bytes.
    Url(String),
    /// A file previously uploaded to the Files API.
    FileId(String),
}

/// What an [`ImageSource`] holds.
#[verifier::ext_equal]
pub enum ImageSourceView {
    Url(Seq<char>),
    FileId(Seq<char>),
}

impl View for ImageSource {
    type V = ImageSourceView;

    open spec fn view(&self) -> ImageSourceView {
        match self {
            ImageSource::Url(url) => ImageSourceView::Url(url@),
            ImageSource::FileId(id) => ImageSourceView::FileId(id@),
        }
    }
}

/// Where a file comes from: one of four alternatives, each with its own field on the wire.
#[derive(Debug, Clone, PartialEq, Eq)]
pub enum FileSource {
    /// The file's own bytes. They are sent as a `data:` URL, since the API refuses bare
    /// base64.
    Inline {
        /// The media type, such as `application/pdf`.
        media_type: String,
        /// The bytes, base64-encoded.
        base64: String,
        /// The name the file goes by.
        filename: String,
    },
    /// A file previously uploaded to the Files API.
    FileId(String),
    /// A URL the file can be read from.
    Url(String),
    /// A file known by its name alone.
    Filename(String),
}

/// What a [`FileSource`] holds.
#[verifier::ext_equal]
pub enum FileSourceView {
    Inline { media_type: Seq<char>, base64: Seq<char>, filename: Seq<char> },
    FileId(Seq<char>),
    Url(Seq<char>),
    Filename(Seq<char>),
}

impl View for FileSource {
    type V = FileSourceView;

    open spec fn view(&self) -> FileSourceView {
        match self {
            FileSource::Inline { media_type, base64, filename } => FileSourceView::Inline {
                media_type: media_type@,
                base64: base64@,
                filename: filename@,
            },
            FileSource::FileId(id) => FileSourceView::FileId(id@),
            FileSource::Url(url) => FileSourceView::Url(url@),
            FileSource::Filename(name) => FileSourceView::Filename(name@),
        }
    }
}

impl FileSource {
    /// A PDF, from its base64-encoded bytes.
    pub fn pdf(base64: &str, filename: &str) -> (source: Self)
        ensures
            source@ == (FileSourceView::Inline {
                media_type: "application/pdf"@,
                base64: base64@,
                filename: filename@,
            }),
    {
        Self::Inline {
            media_type: "application/pdf".to_owned(),
            base64: base64.to_owned(),
            filename: filename.to_owned(),
        }
    }
}

/// Text the model reads, spelled `input_text`.
#[derive(Debug, Clone, PartialEq, Eq)]
pub struct InputText {
    /// The text itself.
    pub text: String,
    pub(crate) prompt_cache_breakpoint: Option<PromptCacheBreakpoint>,
}

/// An image the model looks at.
#[derive(Debug, Clone, PartialEq, Eq)]
pub struct InputImage {
    /// Where the image comes from.
    pub source: ImageSource,
    /// How finely to render it. Changing this invalidates the cache from that image onward.
    pub detail: ImageDetail,
    pub(crate) prompt_cache_breakpoint: Option<PromptCacheBreakpoint>,
}

/// A file the model reads.
#[derive(Debug, Clone, PartialEq, Eq)]
pub struct InputFile {
    /// Where the file comes from.
    pub source: FileSource,
    /// How finely to render it.
    pub detail: FileDetail,
    pub(crate) prompt_cache_breakpoint: Option<PromptCacheBreakpoint>,
}

/// Text the model wrote, spelled `output_text`. A replayed assistant turn, and a legal
/// breakpoint site.
#[derive(Debug, Clone, PartialEq, Eq)]
pub struct OutputText {
    /// The text itself.
    pub text: String,
    pub(crate) prompt_cache_breakpoint: Option<PromptCacheBreakpoint>,
}

/// The model declining, replayed as context. No breakpoint can stand on it.
#[derive(Debug, Clone, PartialEq, Eq)]
pub struct Refusal {
    /// The refusal explanation the model gave.
    pub refusal: String,
}

/// One piece of content a developer or user message may hold.
#[derive(Debug, Clone, PartialEq, Eq)]
pub enum InputBlock {
    /// Text, spelled `input_text`.
    Text(InputText),
    /// An image, spelled `input_image`.
    Image(InputImage),
    /// A file, spelled `input_file`.
    File(InputFile),
}

/// What an [`InputBlock`] holds.
#[verifier::ext_equal]
#[allow(inconsistent_fields)]
pub enum InputBlockView {
    Text { text: Seq<char>, marked: bool },
    Image { source: ImageSourceView, detail: ImageDetail, marked: bool },
    File { source: FileSourceView, detail: FileDetail, marked: bool },
}

impl View for InputBlock {
    type V = InputBlockView;

    closed spec fn view(&self) -> InputBlockView {
        match self {
            InputBlock::Text(block) => InputBlockView::Text {
                text: block.text@,
                marked: block.prompt_cache_breakpoint is Some,
            },
            InputBlock::Image(block) => InputBlockView::Image {
                source: block.source@,
                detail: block.detail,
                marked: block.prompt_cache_breakpoint is Some,
            },
            InputBlock::File(block) => InputBlockView::File {
                source: block.source@,
                detail: block.detail,
                marked: block.prompt_cache_breakpoint is Some,
            },
        }
    }
}

/// The fields of a block, and after them its breakpoint where it is marked.
pub open spec fn with_breakpoint(fields: Seq<(Seq<char>, JsonView)>, marked: bool) -> JsonView {
    JsonView::Object(
        if marked {
            fields.push(("prompt_cache_breakpoint"@, breakpoint_wire()))
        } else {
            fields
        },
    )
}

impl FileSourceView {
    /// The fields that name the source, exactly its own.
    pub open spec fn wire(self) -> Seq<(Seq<char>, JsonView)> {
        match self {
            FileSourceView::Inline { media_type, base64, filename } => seq![
                (
                    "file_data"@,
                    JsonView::Text("data:"@ + media_type + ";base64,"@ + base64),
                ),
                ("filename"@, JsonView::Text(filename)),
            ],
            FileSourceView::FileId(id) => seq![("file_id"@, JsonView::Text(id))],
            FileSourceView::Url(url) => seq![("file_url"@, JsonView::Text(url))],
            FileSourceView::Filename(name) => seq![("filename"@, JsonView::Text(name))],
        }
    }
}

impl InputBlockView {
    /// Whether the block is marked.
    pub open spec fn marked(self) -> bool {
        match self {
            InputBlockView::Text { marked, .. } => marked,
            InputBlockView::Image { marked, .. } => marked,
            InputBlockView::File { marked, .. } => marked,
        }
    }

    /// The block with its mark set or cleared.
    pub open spec fn marking(self, marked: bool) -> Self {
        match self {
            InputBlockView::Text { text, .. } => InputBlockView::Text { text, marked },
            InputBlockView::Image { source, detail, .. } => InputBlockView::Image {
                source,
                detail,
                marked,
            },
            InputBlockView::File { source, detail, .. } => InputBlockView::File {
                source,
                detail,
                marked,
            },
        }
    }

    /// The block's own fields, in order.
    pub open spec fn fields(self) -> Seq<(Seq<char>, JsonView)> {
        match self {
            InputBlockView::Text { text, .. } => seq![
                ("type"@, JsonView::Text("input_text"@)),
                ("text"@, JsonView::Text(text)),
            ],
            InputBlockView::Image { source, detail, .. } => seq![
                ("type"@, JsonView::Text("input_image"@)),
                ("detail"@, JsonView::Text(detail.wire())),
                match source {
                    ImageSourceView::Url(url) => ("image_url"@, JsonView::Text(url)),
                    ImageSourceView::FileId(id) => ("file_id"@, JsonView::Text(id)),
                },
            ],
            InputBlockView::File { source, detail, .. } => seq![
                ("type"@, JsonView::Text("input_file"@)),
                ("detail"@, JsonView::Text(detail.wire())),
            ] + source.wire(),
        }
    }

    /// The block as it is sent.
    pub open spec fn wire(self) -> JsonView {
        with_breakpoint(self.fields(), self.marked())
    }
}

fn put_breakpoint(fields: &mut Vec<(String, Json)>, breakpoint: &Option<PromptCacheBreakpoint>)
    ensures
        JsonView::Object(crate::json::fields_view(final(fields)@)) == with_breakpoint(
            crate::json::fields_view(old(fields)@),
            *breakpoint is Some,
        ),
{
    if let Some(breakpoint) = breakpoint {
        put(fields, "prompt_cache_breakpoint", breakpoint.to_json());
    }
}

fn put_file_source(fields: &mut Vec<(String, Json)>, source: &FileSource)
    ensures
        crate::json::fields_view(final(fields)@) == crate::json::fields_view(old(fields)@)
            + source@.wire(),
{
    let ghost before = crate::json::fields_view(fields@);
    match source {
        FileSource::Inline { media_type, base64, filename } => {
            let data = "data:".to_owned().concat(media_type.as_str()).concat(";base64,").concat(
                base64.as_str(),
            );
            put(fields, "file_data", Json::Text(data));
            put(fields, "filename", Json::text(filename.as_str()));
        },
        FileSource::FileId(id) => put(fields, "file_id", Json::text(id.as_str())),
        FileSource::Url(url) => put(fields, "file_url", Json::text(url.as_str())),
        FileSource::Filename(name) => put(fields, "filename", Json::text(name.as_str())),
    }
    assert(crate::json::fields_view(fields@) =~= before + source@.wire());
}

impl InputBlock {
    /// A text block with no breakpoint. Adding one is the `Context`'s job.
    pub fn text(text: &str) -> (block: Self)
        ensures
            block@ == (InputBlockView::Text { text: text@, marked: false }),
    {
        Self::Text(InputText { text: text.to_owned(), prompt_cache_breakpoint: None })
    }

    /// An image block at the given detail level.
    pub fn image(source: ImageSource, detail: ImageDetail) -> (block: Self)
        ensures
            block@ == (InputBlockView::Image { source: source@, detail, marked: false }),
    {
        Self::Image(InputImage { source, detail, prompt_cache_breakpoint: None })
    }

    /// A file block at the given detail level.
    pub fn file(source: FileSource, detail: FileDetail) -> (block: Self)
        ensures
            block@ == (InputBlockView::File { source: source@, detail, marked: false }),
    {
        Self::File(InputFile { source, detail, prompt_cache_breakpoint: None })
    }

    /// The block as it is sent.
    pub fn to_json(&self) -> (json: Json)
        ensures
            json@ == self@.wire(),
    {
        let mut fields = no_fields();
        match self {
            InputBlock::Text(block) => {
                put(&mut fields, "type", Json::text("input_text"));
                put(&mut fields, "text", Json::text(block.text.as_str()));
                assert(crate::json::fields_view(fields@) =~= self@.fields());
                put_breakpoint(&mut fields, &block.prompt_cache_breakpoint);
            },
            InputBlock::Image(block) => {
                put(&mut fields, "type", Json::text("input_image"));
                put(&mut fields, "detail", Json::text(block.detail.as_str()));
                match &block.source {
                    ImageSource::Url(url) => put(&mut fields, "image_url", Json::text(url.as_str())),
                    ImageSource::FileId(id) => put(&mut fields, "file_id", Json::text(id.as_str())),
                }
                assert(crate::json::fields_view(fields@) =~= self@.fields());
                put_breakpoint(&mut fields, &block.prompt_cache_breakpoint);
            },
            InputBlock::File(block) => {
                put(&mut fields, "type", Json::text("input_file"));
                put(&mut fields, "detail", Json::text(block.detail.as_str()));
                put_file_source(&mut fields, &block.source);
                assert(crate::json::fields_view(fields@) =~= self@.fields());
                put_breakpoint(&mut fields, &block.prompt_cache_breakpoint);
            },
        }
        Json::object(fields)
    }
}

impl BreakpointableBlock for InputBlock {
    open spec fn site(&self) -> Option<bool> {
        Some(self@.marked())
    }

    fn breakpoint_site(&self) -> (site: Option<&Option<PromptCacheBreakpoint>>) {
        match self {
            Self::Text(block) => Some(&block.prompt_cache_breakpoint),
            Self::Image(block) => Some(&block.prompt_cache_breakpoint),
            Self::File(block) => Some(&block.prompt_cache_breakpoint),
        }
    }
}

impl InputBlock {
    /// The block's breakpoint, to be changed.
    fn breakpoint_site_mut(&mut self) -> (site: Option<&mut Option<PromptCacheBreakpoint>>)
        ensures
            site.is_some(),
            old(self)@.marked() == (*site.unwrap() is Some),
            final(self)@ == old(self)@.marking(*final(site.unwrap()) is Some),
    {
        match self {
            Self::Text(block) => Some(&mut block.prompt_cache_breakpoint),
            Self::Image(block) => Some(&mut block.prompt_cache_breakpoint),
            Self::File(block) => Some(&mut block.prompt_cache_breakpoint),
        }
    }
}

/// One piece of content an assistant message may hold.
#[derive(Debug, Clone, PartialEq, Eq)]
pub enum OutputBlock {
    /// Text the model wrote, spelled `output_text`.
    Text(OutputText),
    /// The model declining, spelled `refusal`.
    Refusal(Refusal),
}

/// What an [`OutputBlock`] holds.
#[verifier::ext_equal]
pub enum OutputBlockView {
    Text { text: Seq<char>, marked: bool },
    Refusal { refusal: Seq<char> },
}

impl View for OutputBlock {
    type V = OutputBlockView;

    closed spec fn view(&self) -> OutputBlockView {
        match self {
            OutputBlock::Text(block) => OutputBlockView::Text {
                text: block.text@,
                marked: block.prompt_cache_breakpoint is Some,
            },
            OutputBlock::Refusal(block) => OutputBlockView::Refusal { refusal: block.refusal@ },
        }
    }
}

impl OutputBlockView {
    /// Whether the block is marked, where it can be.
    pub open spec fn site(self) -> Option<bool> {
        match self {
            OutputBlockView::Text { marked, .. } => Some(marked),
            OutputBlockView::Refusal { .. } => None,
        }
    }

    /// The block with its mark set or cleared; a refusal has none.
    pub open spec fn marking(self, marked: bool) -> Self {
        match self {
            OutputBlockView::Text { text, .. } => OutputBlockView::Text { text, marked },
            OutputBlockView::Refusal { .. } => self,
        }
    }

    /// The block's own fields, in order.
    pub open spec fn fields(self) -> Seq<(Seq<char>, JsonView)> {
        match self {
            OutputBlockView::Text { text, .. } => seq![
                ("type"@, JsonView::Text("output_text"@)),
                ("text"@, JsonView::Text(text)),
            ],
            OutputBlockView::Refusal { refusal } => seq![
                ("type"@, JsonView::Text("refusal"@)),
                ("refusal"@, JsonView::Text(refusal)),
            ],
        }
    }

    /// The block as it is sent.
    pub open spec fn wire(self) -> JsonView {
        with_breakpoint(self.fields(), self.site() == Some(true))
    }
}

impl OutputBlock {
    /// A replayed answer with no breakpoint. Adding one is the `Context`'s job.
    pub fn text(text: &str) -> (block: Self)
        ensures
            block@ == (OutputBlockView::Text { text: text@, marked: false }),
    {
        Self::Text(OutputText { text: text.to_owned(), prompt_cache_breakpoint: None })
    }

    /// A replayed refusal. Carries no breakpoint, and cannot be given one.
    pub fn refusal(refusal: &str) -> (block: Self)
        ensures
            block@ == (OutputBlockView::Refusal { refusal: refusal@ }),
    {
        Self::Refusal(Refusal { refusal: refusal.to_owned() })
    }

    /// The block as it is sent.
    pub fn to_json(&self) -> (json: Json)
        ensures
            json@ == self@.wire(),
    {
        let mut fields = no_fields();
        match self {
            OutputBlock::Text(block) => {
                put(&mut fields, "type", Json::text("output_text"));
                put(&mut fields, "text", Json::text(block.text.as_str()));
                assert(crate::json::fields_view(fields@) =~= self@.fields());
                put_breakpoint(&mut fields, &block.prompt_cache_breakpoint);
            },
            OutputBlock::Refusal(block) => {
                put(&mut fields, "type", Json::text("refusal"));
                put(&mut fields, "refusal", Json::text(block.refusal.as_str()));
                assert(crate::json::fields_view(fields@) =~= self@.fields());
            },
        }
        Json::object(fields)
    }
}

impl BreakpointableBlock for OutputBlock {
    open spec fn site(&self) -> Option<bool> {
        self@.site()
    }

    fn breakpoint_site(&self) -> (site: Option<&Option<PromptCacheBreakpoint>>) {
        match self {
            Self::Text(block) => Some(&block.prompt_cache_breakpoint),
            Self::Refusal(_) => None,
        }
    }
}

impl OutputBlock {
    /// The block's breakpoint, to be changed, where it has a place for one.
    fn breakpoint_site_mut(&mut self) -> (site: Option<&mut Option<PromptCacheBreakpoint>>)
        ensures
            site.is_none() == (old(self)@.site() is None),
            site.is_none() ==> *final(self) == *old(self),
            site.is_some() ==> old(self)@.site() == Some(*site.unwrap() is Some),
            site.is_some() ==> final(self)@ == old(self)@.marking(*final(site.unwrap()) is Some),
    {
        match self {
            Self::Text(block) => Some(&mut block.prompt_cache_breakpoint),
            Self::Refusal(_) => None,
        }
    }
}

/// A message from the developer, the user, or the model.
///
/// The variants are the roles grouped by the vocabulary they accept. An assistant message
/// carries a `phase`, a plain field because on this variant it always means something.
#[allow(inconsistent_fields)]
#[derive(Debug, Clone, PartialEq, Eq)]
pub enum Message {
    /// A developer or user message: the roles whose content is the input vocabulary.
    Input {
        /// Which of the two roles is speaking.
        role: InputRole,
        /// The content blocks, in order.
        content: Vec<InputBlock>,
    },
    /// A previous model turn, replayed as context.
    Assistant {
        /// Commentary or final answer. OpenAI asks that this be preserved and resent on
        /// every replay.
        phase: AssistantPhase,
        /// The content blocks, in order.
        content: Vec<OutputBlock>,
    },
}

/// What a [`Message`] holds.
#[verifier::ext_equal]
#[allow(inconsistent_fields)]
pub enum MessageView {
    Input { role: InputRole, content: Seq<InputBlockView> },
    Assistant { phase: AssistantPhase, content: Seq<OutputBlockView> },
}

impl View for Message {
    type V = MessageView;

    open spec fn view(&self) -> MessageView {
        match self {
            Message::Input { role, content } => MessageView::Input {
                role: *role,
                content: views::list_view(content@),
            },
            Message::Assistant { phase, content } => MessageView::Assistant {
                phase: *phase,
                content: views::list_view(content@),
            },
        }
    }
}

/// What a function returned. `Text` is the ordinary case; `Blocks` exists because a
/// breakpoint needs a block to sit on. The blocks are the *input* vocabulary: a tool result
/// is something the model reads, not something it wrote.
#[derive(Debug, Clone, PartialEq, Eq)]
pub enum FunctionOutput {
    /// A single string, usually JSON.
    Text(String),
    /// Content blocks, one of which may carry a breakpoint.
    Blocks(Vec<InputBlock>),
}

/// What a [`FunctionOutput`] holds.
#[verifier::ext_equal]
pub enum FunctionOutputView {
    Text(Seq<char>),
    Blocks(Seq<InputBlockView>),
}

impl View for FunctionOutput {
    type V = FunctionOutputView;

    open spec fn view(&self) -> FunctionOutputView {
        match self {
            FunctionOutput::Text(text) => FunctionOutputView::Text(text@),
            FunctionOutput::Blocks(blocks) => FunctionOutputView::Blocks(
                views::list_view(blocks@),
            ),
        }
    }
}

/// A model turn asking for a function call.
#[derive(Debug, Clone, PartialEq, Eq)]
pub struct FunctionCall {
    /// The identifier the model generated. The matching output must repeat it.
    pub call_id: String,
    /// Which function to run.
    pub name: String,
    /// The arguments, as the JSON *string* the model emitted: the bytes are what the model
    /// sees on replay.
    pub arguments: String,
}

/// What a [`FunctionCall`] holds.
#[verifier::ext_equal]
pub struct FunctionCallView {
    pub call_id: Seq<char>,
    pub name: Seq<char>,
    pub arguments: Seq<char>,
}

impl View for FunctionCall {
    type V = FunctionCallView;

    open spec fn view(&self) -> FunctionCallView {
        FunctionCallView {
            call_id: self.call_id@,
            name: self.name@,
            arguments: self.arguments@,
        }
    }
}

/// The result of a function call, fed back for the next turn.
#[derive(Debug, Clone, PartialEq, Eq)]
pub struct FunctionCallOutput {
    /// The `call_id` of the call this answers.
    pub call_id: String,
    /// What the function returned.
    pub output: FunctionOutput,
}

/// What a [`FunctionCallOutput`] holds.
#[verifier::ext_equal]
pub struct FunctionCallOutputView {
    pub call_id: Seq<char>,
    pub output: FunctionOutputView,
}

impl View for FunctionCallOutput {
    type V = FunctionCallOutputView;

    open spec fn view(&self) -> FunctionCallOutputView {
        FunctionCallOutputView { call_id: self.call_id@, output: self.output@ }
    }
}

/// A reasoning item from an earlier response, replayed verbatim.
///
/// The payload arrives as `encrypted_content`, opaque to everyone but OpenAI, so this type
/// only carries it.
#[derive(Debug, Clone, PartialEq, Eq)]
pub struct ReplayedReasoning {
    /// The item's `id` from the response that produced it.
    pub id: String,
    /// The opaque `encrypted_content` from that response.
    pub encrypted_content: String,
}

/// What a [`ReplayedReasoning`] holds.
#[verifier::ext_equal]
pub struct ReplayedReasoningView {
    pub id: Seq<char>,
    pub encrypted_content: Seq<char>,
}

impl View for ReplayedReasoning {
    type V = ReplayedReasoningView;

    open spec fn view(&self) -> ReplayedReasoningView {
        ReplayedReasoningView { id: self.id@, encrypted_content: self.encrypted_content@ }
    }
}

/// One entry in the `input` array.
#[derive(Debug, Clone, PartialEq, Eq)]
pub enum InputItem {
    /// A developer, user, or assistant message.
    Message(Message),
    /// A function call the model made.
    FunctionCall(FunctionCall),
    /// The result of that call.
    FunctionCallOutput(FunctionCallOutput),
    /// Reasoning from an earlier response.
    Reasoning(ReplayedReasoning),
}

/// What an [`InputItem`] holds.
#[verifier::ext_equal]
pub enum InputItemView {
    Message(MessageView),
    FunctionCall(FunctionCallView),
    FunctionCallOutput(FunctionCallOutputView),
    Reasoning(ReplayedReasoningView),
}

impl View for InputItem {
    type V = InputItemView;

    open spec fn view(&self) -> InputItemView {
        match self {
            InputItem::Message(message) => InputItemView::Message(message@),
            InputItem::FunctionCall(call) => InputItemView::FunctionCall(call@),
            InputItem::FunctionCallOutput(output) => InputItemView::FunctionCallOutput(output@),
            InputItem::Reasoning(reasoning) => InputItemView::Reasoning(reasoning@),
        }
    }
}

// Breakpoint sites.

/// The site of each block of a list: whether it is marked, where it can be.
pub open spec fn input_sites(blocks: Seq<InputBlockView>) -> Seq<Option<bool>> {
    Seq::new(blocks.len(), |i: int| Some(blocks[i].marked()))
}

/// The site of each block of an assistant message.
pub open spec fn output_sites(blocks: Seq<OutputBlockView>) -> Seq<Option<bool>> {
    Seq::new(blocks.len(), |i: int| blocks[i].site())
}

/// The last place among sites where a breakpoint can go.
pub open spec fn last_site(sites: Seq<Option<bool>>) -> Option<nat>
    decreases sites.len(),
{
    if sites.len() == 0 {
        None
    } else if sites.last() is Some {
        Some((sites.len() - 1) as nat)
    } else {
        last_site(sites.drop_last())
    }
}

/// How many sites are marked.
pub open spec fn marked_sites(sites: Seq<Option<bool>>) -> nat
    decreases sites.len(),
{
    if sites.len() == 0 {
        0
    } else {
        marked_sites(sites.drop_last()) + if sites.last() == Some(true) {
            1nat
        } else {
            0nat
        }
    }
}

/// Blocks without any marks.
pub open spec fn unmarked_inputs(blocks: Seq<InputBlockView>) -> Seq<InputBlockView> {
    Seq::new(blocks.len(), |i: int| blocks[i].marking(false))
}

/// Output blocks without any marks.
pub open spec fn unmarked_outputs(blocks: Seq<OutputBlockView>) -> Seq<OutputBlockView> {
    Seq::new(blocks.len(), |i: int| blocks[i].marking(false))
}

impl InputItemView {
    /// The site of each block of the item, in order. An item made of no blocks has none.
    pub open spec fn sites(self) -> Seq<Option<bool>> {
        match self {
            InputItemView::Message(MessageView::Input { content, .. }) => input_sites(content),
            InputItemView::Message(MessageView::Assistant { content, .. }) => output_sites(content),
            InputItemView::FunctionCallOutput(answer) => match answer.output {
                FunctionOutputView::Blocks(blocks) => input_sites(blocks),
                FunctionOutputView::Text(_) => Seq::empty(),
            },
            _ => Seq::empty(),
        }
    }

    /// Whether a block of the item is marked, where it can be.
    pub open spec fn site(self, block: int) -> Option<bool> {
        if 0 <= block < self.sites().len() {
            self.sites()[block]
        } else {
            None
        }
    }

    /// The item with the mark of one block set or cleared.
    pub open spec fn marking(self, block: int, present: bool) -> Self {
        match self {
            InputItemView::Message(MessageView::Input { role, content }) => InputItemView::Message(
                MessageView::Input {
                    role,
                    content: content.update(block, content[block].marking(present)),
                },
            ),
            InputItemView::Message(
                MessageView::Assistant { phase, content },
            ) => InputItemView::Message(
                MessageView::Assistant {
                    phase,
                    content: content.update(block, content[block].marking(present)),
                },
            ),
            InputItemView::FunctionCallOutput(answer) => InputItemView::FunctionCallOutput(
                FunctionCallOutputView {
                    call_id: answer.call_id,
                    output: match answer.output {
                        FunctionOutputView::Blocks(blocks) => FunctionOutputView::Blocks(
                            blocks.update(block, blocks[block].marking(present)),
                        ),
                        FunctionOutputView::Text(text) => FunctionOutputView::Text(text),
                    },
                },
            ),
            _ => self,
        }
    }

    /// The item without any marks: what the model reads.
    pub open spec fn content(self) -> Self {
        match self {
            InputItemView::Message(MessageView::Input { role, content }) => InputItemView::Message(
                MessageView::Input {
                    role,
                    content: unmarked_inputs(content),
                },
            ),
            InputItemView::Message(
                MessageView::Assistant { phase, content },
            ) => InputItemView::Message(
                MessageView::Assistant {
                    phase,
                    content: unmarked_outputs(content),
                },
            ),
            InputItemView::FunctionCallOutput(answer) => InputItemView::FunctionCallOutput(
                FunctionCallOutputView {
                    call_id: answer.call_id,
                    output: match answer.output {
                        FunctionOutputView::Blocks(blocks) => FunctionOutputView::Blocks(
                            unmarked_inputs(blocks),
                        ),
                        FunctionOutputView::Text(text) => FunctionOutputView::Text(text),
                    },
                },
            ),
            _ => self,
        }
    }

    /// How many blocks of the item are marked.
    pub open spec fn marks(self) -> nat {
        marked_sites(self.sites())
    }
}

/// What marking a block changes: that block's site, and none of the content.
pub proof fn marking_changes_one_site(item: InputItemView, block: int, present: bool)
    requires
        item.site(block) is Some,
    ensures
        item.marking(block, present).sites() == item.sites().update(block, Some(present)),
        item.marking(block, present).content() == item.content(),
{
    assert(item.marking(block, present).sites() =~= item.sites().update(block, Some(present)));
    match item {
        InputItemView::Message(MessageView::Input { role, content }) => {
            assert(unmarked_inputs(content.update(block, content[block].marking(present)))
                =~= unmarked_inputs(content));
        },
        InputItemView::Message(MessageView::Assistant { phase, content }) => {
            assert(unmarked_outputs(content.update(block, content[block].marking(present)))
                =~= unmarked_outputs(content));
        },
        InputItemView::FunctionCallOutput(answer) => match answer.output {
            FunctionOutputView::Blocks(blocks) => {
                assert(unmarked_inputs(blocks.update(block, blocks[block].marking(present)))
                    =~= unmarked_inputs(blocks));
            },
            FunctionOutputView::Text(_) => {},
        },
        _ => {},
    }
}

/// What an item says carries no mark.
pub proof fn content_is_unmarked(item: InputItemView)
    ensures
        forall|block: int| #[trigger] item.content().site(block) != Some(true),
{
    assert forall|block: int| #[trigger] item.content().site(block) != Some(true) by {
        if 0 <= block < item.content().sites().len() {
            match item {
                InputItemView::Message(MessageView::Input { content, .. }) => {
                    assert(!unmarked_inputs(content)[block].marked());
                },
                InputItemView::Message(MessageView::Assistant { content, .. }) => {
                    assert(unmarked_outputs(content)[block].site() != Some(true));
                },
                InputItemView::FunctionCallOutput(answer) => match answer.output {
                    FunctionOutputView::Blocks(blocks) => {
                        assert(!unmarked_inputs(blocks)[block].marked());
                    },
                    FunctionOutputView::Text(_) => {},
                },
                _ => {},
            }
        }
    }
}

/// An item that carries no mark is what it says.
pub proof fn an_unmarked_item_is_its_content(item: InputItemView)
    requires
        forall|block: int| #[trigger] item.site(block) != Some(true),
    ensures
        item.content() == item,
{
    match item {
        InputItemView::Message(MessageView::Input { content, .. }) => {
            assert forall|i: int| 0 <= i < content.len() implies #[trigger] content[i].marking(false)
                == content[i] by {
                assert(item.site(i) != Some(true));
            }
            assert(unmarked_inputs(content) =~= content);
        },
        InputItemView::Message(MessageView::Assistant { content, .. }) => {
            assert forall|i: int| 0 <= i < content.len() implies #[trigger] content[i].marking(false)
                == content[i] by {
                assert(item.site(i) != Some(true));
            }
            assert(unmarked_outputs(content) =~= content);
        },
        InputItemView::FunctionCallOutput(answer) => match answer.output {
            FunctionOutputView::Blocks(blocks) => {
                assert forall|i: int| 0 <= i < blocks.len() implies #[trigger] blocks[i].marking(
                    false,
                ) == blocks[i] by {
                    assert(item.site(i) != Some(true));
                }
                assert(unmarked_inputs(blocks) =~= blocks);
            },
            FunctionOutputView::Text(_) => {},
        },
        _ => {},
    }
}

fn without_marks(blocks: Vec<InputBlock>) -> (bare: Vec<InputBlock>)
    ensures
        views::list_view(bare@) == unmarked_inputs(views::list_view(blocks@)),
{
    let mut bare = blocks;
    let mut i: usize = 0;
    while i < bare.len()
        invariant
            i <= bare.len(),
            bare.len() == blocks.len(),
            forall|j: int| 0 <= j < i ==> (#[trigger] bare@[j])@ == blocks@[j]@.marking(false),
            forall|j: int| i <= j < bare.len() ==> #[trigger] bare@[j] == blocks@[j],
        decreases bare.len() - i,
    {
        let block = &mut bare[i];
        if let Some(site) = block.breakpoint_site_mut() {
            *site = None;
        }
        i += 1;
    }
    assert(views::list_view(bare@) =~= unmarked_inputs(views::list_view(blocks@)));
    bare
}

fn outputs_without_marks(blocks: Vec<OutputBlock>) -> (bare: Vec<OutputBlock>)
    ensures
        views::list_view(bare@) == unmarked_outputs(views::list_view(blocks@)),
{
    let mut bare = blocks;
    let mut i: usize = 0;
    while i < bare.len()
        invariant
            i <= bare.len(),
            bare.len() == blocks.len(),
            forall|j: int| 0 <= j < i ==> (#[trigger] bare@[j])@ == blocks@[j]@.marking(false),
            forall|j: int| i <= j < bare.len() ==> #[trigger] bare@[j] == blocks@[j],
        decreases bare.len() - i,
    {
        let block = &mut bare[i];
        if let Some(site) = block.breakpoint_site_mut() {
            *site = None;
        }
        i += 1;
    }
    assert(views::list_view(bare@) =~= unmarked_outputs(views::list_view(blocks@)));
    bare
}

/// The item with every mark cleared.
pub(crate) fn unmarked(item: InputItem) -> (bare: InputItem)
    ensures
        bare@ == item@.content(),
{
    match item {
        InputItem::Message(Message::Input { role, content }) => InputItem::Message(
            Message::Input { role, content: without_marks(content) },
        ),
        InputItem::Message(Message::Assistant { phase, content }) => InputItem::Message(
            Message::Assistant { phase, content: outputs_without_marks(content) },
        ),
        InputItem::FunctionCallOutput(FunctionCallOutput { call_id, output }) => {
            let output = match output {
                FunctionOutput::Blocks(blocks) => FunctionOutput::Blocks(without_marks(blocks)),
                FunctionOutput::Text(text) => FunctionOutput::Text(text),
            };
            InputItem::FunctionCallOutput(FunctionCallOutput { call_id, output })
        },
        InputItem::FunctionCall(call) => InputItem::FunctionCall(call),
        InputItem::Reasoning(reasoning) => InputItem::Reasoning(reasoning),
    }
}

spec fn sites_of<B: BreakpointableBlock>(blocks: Seq<B>) -> Seq<Option<bool>> {
    Seq::new(blocks.len(), |i: int| blocks[i].site())
}

fn last_breakpoint_site<B: BreakpointableBlock>(blocks: &Vec<B>) -> (place: Option<usize>)
    ensures
        match place {
            Some(b) => last_site(sites_of(blocks@)) == Some(b as nat),
            None => last_site(sites_of(blocks@)) is None,
        },
{
    let ghost all = sites_of(blocks@);
    let mut i: usize = blocks.len();
    assert(all.take(i as int) =~= all);
    while i > 0
        invariant
            i <= blocks.len(),
            all == sites_of(blocks@),
            last_site(all.take(i as int)) == last_site(all),
        decreases i,
    {
        assert(all.take(i as int).last() == blocks@[i - 1].site());
        if blocks[i - 1].accepts_breakpoint() {
            return Some(i - 1);
        }
        assert(all.take(i as int).drop_last() =~= all.take(i - 1));
        i -= 1;
    }
    None
}

fn breakpoint_count<B: BreakpointableBlock>(blocks: &Vec<B>) -> (n: usize)
    ensures
        n == marked_sites(sites_of(blocks@)),
{
    let ghost all = sites_of(blocks@);
    let mut n: usize = 0;
    let mut i: usize = 0;
    assert(all.take(0) =~= Seq::<Option<bool>>::empty());
    while i < blocks.len()
        invariant
            i <= blocks.len(),
            n <= i,
            all == sites_of(blocks@),
            n == marked_sites(all.take(i as int)),
        decreases blocks.len() - i,
    {
        assert(all.take(i + 1).drop_last() =~= all.take(i as int));
        assert(all.take(i + 1).last() == blocks@[i as int].site());
        if blocks[i].has_breakpoint() {
            n += 1;
        }
        i += 1;
    }
    assert(all.take(i as int) =~= all);
    n
}

impl InputItem {
    /// The index of the last block in this item that can carry a breakpoint.
    ///
    /// `None` for items offering no site at all: a function call, an output returned as a
    /// bare string, a reasoning item, or an assistant turn that is nothing but a refusal.
    pub fn last_breakpoint_site(&self) -> (place: Option<usize>)
        ensures
            match place {
                Some(b) => last_site(self@.sites()) == Some(b as nat),
                None => last_site(self@.sites()) is None,
            },
    {
        match self {
            InputItem::Message(Message::Input { content, .. }) => {
                assert(sites_of(content@) =~= self@.sites());
                last_breakpoint_site(content)
            },
            InputItem::Message(Message::Assistant { content, .. }) => {
                assert(sites_of(content@) =~= self@.sites());
                last_breakpoint_site(content)
            },
            InputItem::FunctionCallOutput(answer) => match &answer.output {
                FunctionOutput::Blocks(blocks) => {
                    assert(sites_of(blocks@) =~= self@.sites());
                    last_breakpoint_site(blocks)
                },
                FunctionOutput::Text(_) => None,
            },
            InputItem::FunctionCall(_) | InputItem::Reasoning(_) => None,
        }
    }

    /// The breakpoint of the `block`-th block, if that block has a place for one.
    pub fn breakpoint_site_mut(&mut self, block: usize) -> (site: Option<
        &mut Option<PromptCacheBreakpoint>,
    >)
        ensures
            site.is_none() == (old(self)@.site(block as int) is None),
            site.is_none() ==> final(self)@ == old(self)@,
            site.is_some() ==> old(self)@.site(block as int) == Some(*site.unwrap() is Some),
            site.is_some() ==> final(self)@ == old(self)@.marking(
                block as int,
                *final(site.unwrap()) is Some,
            ),
    {
        match self {
            InputItem::Message(Message::Input { content, .. }) => {
                if block < content.len() {
                    content[block].breakpoint_site_mut()
                } else {
                    None
                }
            },
            InputItem::Message(Message::Assistant { content, .. }) => {
                if block < content.len() {
                    content[block].breakpoint_site_mut()
                } else {
                    None
                }
            },
            InputItem::FunctionCallOutput(answer) => match &mut answer.output {
                FunctionOutput::Blocks(blocks) => {
                    if block < blocks.len() {
                        blocks[block].breakpoint_site_mut()
                    } else {
                        None
                    }
                },
                FunctionOutput::Text(_) => None,
            },
            InputItem::FunctionCall(_) | InputItem::Reasoning(_) => None,
        }
    }

    /// How many breakpoints this item carries.
    ///
    /// Sums to the request's explicit-breakpoint total across all items, so it is how you
    /// audit an assembled context against the four-write budget.
    pub fn breakpoint_count(&self) -> (n: usize)
        ensures
            n == self@.marks(),
    {
        match self {
            InputItem::Message(Message::Input { content, .. }) => {
                assert(sites_of(content@) =~= self@.sites());
                breakpoint_count(content)
            },
            InputItem::Message(Message::Assistant { content, .. }) => {
                assert(sites_of(content@) =~= self@.sites());
                breakpoint_count(content)
            },
            InputItem::FunctionCallOutput(answer) => match &answer.output {
                FunctionOutput::Blocks(blocks) => {
                    assert(sites_of(blocks@) =~= self@.sites());
                    breakpoint_count(blocks)
                },
                FunctionOutput::Text(_) => 0,
            },
            InputItem::FunctionCall(_) | InputItem::Reasoning(_) => 0,
        }
    }
}

// As items are sent.

/// Input blocks as they are sent.
pub open spec fn input_blocks_wire(blocks: Seq<InputBlockView>) -> JsonView {
    JsonView::Array(Seq::new(blocks.len(), |i: int| blocks[i].wire()))
}

/// Output blocks as they are sent.
pub open spec fn output_blocks_wire(blocks: Seq<OutputBlockView>) -> JsonView {
    JsonView::Array(Seq::new(blocks.len(), |i: int| blocks[i].wire()))
}

impl MessageView {
    /// The message's fields, in order. An assistant message states its phase; the others have
    /// none.
    pub open spec fn fields(self) -> Seq<(Seq<char>, JsonView)> {
        match self {
            MessageView::Input { role, content } => seq![
                ("type"@, JsonView::Text("message"@)),
                ("role"@, JsonView::Text(role.wire())),
                ("content"@, input_blocks_wire(content)),
            ],
            MessageView::Assistant { phase, content } => seq![
                ("type"@, JsonView::Text("message"@)),
                ("role"@, JsonView::Text("assistant"@)),
                ("content"@, output_blocks_wire(content)),
                ("phase"@, JsonView::Text(phase.wire())),
            ],
        }
    }
}

impl InputItemView {
    /// The item's fields, in order.
    pub open spec fn fields(self) -> Seq<(Seq<char>, JsonView)> {
        match self {
            InputItemView::Message(message) => message.fields(),
            InputItemView::FunctionCall(call) => seq![
                ("type"@, JsonView::Text("function_call"@)),
                ("call_id"@, JsonView::Text(call.call_id)),
                ("name"@, JsonView::Text(call.name)),
                ("arguments"@, JsonView::Text(call.arguments)),
            ],
            InputItemView::FunctionCallOutput(answer) => seq![
                ("type"@, JsonView::Text("function_call_output"@)),
                ("call_id"@, JsonView::Text(answer.call_id)),
                (
                    "output"@,
                    match answer.output {
                        FunctionOutputView::Text(text) => JsonView::Text(text),
                        FunctionOutputView::Blocks(blocks) => input_blocks_wire(blocks),
                    },
                ),
            ],
            InputItemView::Reasoning(reasoning) => seq![
                ("type"@, JsonView::Text("reasoning"@)),
                ("id"@, JsonView::Text(reasoning.id)),
                ("encrypted_content"@, JsonView::Text(reasoning.encrypted_content)),
                ("summary"@, JsonView::Array(Seq::empty())),
            ],
        }
    }

    /// The item as it is sent.
    pub open spec fn wire(self) -> JsonView {
        JsonView::Object(self.fields())
    }
}

fn input_blocks_json(blocks: &Vec<InputBlock>) -> (json: Json)
    ensures
        json@ == input_blocks_wire(views::list_view(blocks@)),
{
    let mut out: Vec<Json> = Vec::new();
    let mut i: usize = 0;
    while i < blocks.len()
        invariant
            i <= blocks.len(),
            out.len() == i,
            forall|j: int| 0 <= j < i ==> (#[trigger] out@[j])@ == blocks@[j]@.wire(),
        decreases blocks.len() - i,
    {
        out.push(blocks[i].to_json());
        i += 1;
    }
    assert(views::list_view(out@) =~= input_blocks_wire(views::list_view(blocks@))->Array_0);
    Json::array(out)
}

fn output_blocks_json(blocks: &Vec<OutputBlock>) -> (json: Json)
    ensures
        json@ == output_blocks_wire(views::list_view(blocks@)),
{
    let mut out: Vec<Json> = Vec::new();
    let mut i: usize = 0;
    while i < blocks.len()
        invariant
            i <= blocks.len(),
            out.len() == i,
            forall|j: int| 0 <= j < i ==> (#[trigger] out@[j])@ == blocks@[j]@.wire(),
        decreases blocks.len() - i,
    {
        out.push(blocks[i].to_json());
        i += 1;
    }
    assert(views::list_view(out@) =~= output_blocks_wire(views::list_view(blocks@))->Array_0);
    Json::array(out)
}

impl Message {
    /// The message as it is sent.
    pub fn to_json(&self) -> (json: Json)
        ensures
            json@ == JsonView::Object(self@.fields()),
    {
        let mut fields = no_fields();
        put(&mut fields, "type", Json::text("message"));
        match self {
            Message::Input { role, content } => {
                put(&mut fields, "role", Json::text(role.as_str()));
                put(&mut fields, "content", input_blocks_json(content));
            },
            Message::Assistant { phase, content } => {
                put(&mut fields, "role", Json::text("assistant"));
                put(&mut fields, "content", output_blocks_json(content));
                put(&mut fields, "phase", Json::text(phase.as_str()));
            },
        }
        assert(crate::json::fields_view(fields@) =~= self@.fields());
        Json::object(fields)
    }
}

impl InputItem {
    /// The item as it is sent.
    pub fn to_json(&self) -> (json: Json)
        ensures
            json@ == self@.wire(),
    {
        let mut fields = no_fields();
        match self {
            InputItem::Message(message) => {
                return message.to_json();
            },
            InputItem::FunctionCall(call) => {
                put(&mut fields, "type", Json::text("function_call"));
                put(&mut fields, "call_id", Json::text(call.call_id.as_str()));
                put(&mut fields, "name", Json::text(call.name.as_str()));
                put(&mut fields, "arguments", Json::text(call.arguments.as_str()));
            },
            InputItem::FunctionCallOutput(answer) => {
                put(&mut fields, "type", Json::text("function_call_output"));
                put(&mut fields, "call_id", Json::text(answer.call_id.as_str()));
                match &answer.output {
                    FunctionOutput::Text(text) => put(
                        &mut fields,
                        "output",
                        Json::text(text.as_str()),
                    ),
                    FunctionOutput::Blocks(blocks) => put(
                        &mut fields,
                        "output",
                        input_blocks_json(blocks),
                    ),
                }
            },
            InputItem::Reasoning(reasoning) => {
                put(&mut fields, "type", Json::text("reasoning"));
                put(&mut fields, "id", Json::text(reasoning.id.as_str()));
                put(
                    &mut fields,
                    "encrypted_content",
                    Json::text(reasoning.encrypted_content.as_str()),
                );
                let summary: Vec<Json> = Vec::new();
                assert(views::list_view(summary@) =~= Seq::<JsonView>::empty());
                put(&mut fields, "summary", Json::array(summary));
            },
        }
        assert(crate::json::fields_view(fields@) =~= self@.fields());
        Json::object(fields)
    }
}

} // verus!
