use vstd::prelude::*;

use crate::document::{Document, DocumentView};

verus! {

/// The image formats of the provider, and a place for a name it may send
/// that is none of them.
#[derive(Clone, Debug, PartialEq, Eq)]
pub enum ImageFormat {
    Gif,
    Jpeg,
    Png,
    Webp,
    Unknown(String),
}

/// What a `ImageFormat` stands for.
pub ghost enum ImageFormatView {
    Gif,
    Jpeg,
    Png,
    Webp,
    Unknown(Seq<char>),
}

impl ImageFormatView {
    /// The name the provider writes the format with.
    pub open spec fn name(self) -> Seq<char> {
        match self {
            ImageFormatView::Gif => "gif"@,
            ImageFormatView::Jpeg => "jpeg"@,
            ImageFormatView::Png => "png"@,
            ImageFormatView::Webp => "webp"@,
            ImageFormatView::Unknown(name) => name,
        }
    }
}

impl View for ImageFormat {
    type V = ImageFormatView;

    open spec fn view(&self) -> ImageFormatView {
        match self {
            ImageFormat::Gif => ImageFormatView::Gif,
            ImageFormat::Jpeg => ImageFormatView::Jpeg,
            ImageFormat::Png => ImageFormatView::Png,
            ImageFormat::Webp => ImageFormatView::Webp,
            ImageFormat::Unknown(name) => ImageFormatView::Unknown(name@),
        }
    }
}

impl ImageFormat {
    /// The name the provider writes the format with.
    pub fn as_str(&self) -> (name: &str)
        ensures
            name@ == self@.name(),
    {
        match self {
            ImageFormat::Gif => "gif",
            ImageFormat::Jpeg => "jpeg",
            ImageFormat::Png => "png",
            ImageFormat::Webp => "webp",
            ImageFormat::Unknown(name) => name.as_str(),
        }
    }
}

/// The document formats of the provider, and a place for a name it may send
/// that is none of them.
#[derive(Clone, Debug, PartialEq, Eq)]
pub enum DocumentFormat {
    Csv,
    Doc,
    Docx,
    Html,
    Md,
    Pdf,
    Txt,
    Xls,
    Xlsx,
    Unknown(String),
}

/// What a `DocumentFormat` stands for.
pub ghost enum DocumentFormatView {
    Csv,
    Doc,
    Docx,
    Html,
    Md,
    Pdf,
    Txt,
    Xls,
    Xlsx,
    Unknown(Seq<char>),
}

impl DocumentFormatView {
    /// The name the provider writes the format with.
    pub open spec fn name(self) -> Seq<char> {
        match self {
            DocumentFormatView::Csv => "csv"@,
            DocumentFormatView::Doc => "doc"@,
            DocumentFormatView::Docx => "docx"@,
            DocumentFormatView::Html => "html"@,
            DocumentFormatView::Md => "md"@,
            DocumentFormatView::Pdf => "pdf"@,
            DocumentFormatView::Txt => "txt"@,
            DocumentFormatView::Xls => "xls"@,
            DocumentFormatView::Xlsx => "xlsx"@,
            DocumentFormatView::Unknown(name) => name,
        }
    }
}

impl View for DocumentFormat {
    type V = DocumentFormatView;

    open spec fn view(&self) -> DocumentFormatView {
        match self {
            DocumentFormat::Csv => DocumentFormatView::Csv,
            DocumentFormat::Doc => DocumentFormatView::Doc,
            DocumentFormat::Docx => DocumentFormatView::Docx,
            DocumentFormat::Html => DocumentFormatView::Html,
            DocumentFormat::Md => DocumentFormatView::Md,
            DocumentFormat::Pdf => DocumentFormatView::Pdf,
            DocumentFormat::Txt => DocumentFormatView::Txt,
            DocumentFormat::Xls => DocumentFormatView::Xls,
            DocumentFormat::Xlsx => DocumentFormatView::Xlsx,
            DocumentFormat::Unknown(name) => DocumentFormatView::Unknown(name@),
        }
    }
}

impl DocumentFormat {
    /// The name the provider writes the format with.
    pub fn as_str(&self) -> (name: &str)
        ensures
            name@ == self@.name(),
    {
        match self {
            DocumentFormat::Csv => "csv",
            DocumentFormat::Doc => "doc",
            DocumentFormat::Docx => "docx",
            DocumentFormat::Html => "html",
            DocumentFormat::Md => "md",
            DocumentFormat::Pdf => "pdf",
            DocumentFormat::Txt => "txt",
            DocumentFormat::Xls => "xls",
            DocumentFormat::Xlsx => "xlsx",
            DocumentFormat::Unknown(name) => name.as_str(),
        }
    }
}

/// An image as the provider carries it: the format and the raw bytes.
/// `source` is `None` where the block came without bytes.
#[derive(Clone, Debug, PartialEq, Eq)]
pub struct ImageBlock {
    pub format: ImageFormat,
    pub source: Option<Vec<u8>>,
}

/// What a `ImageBlock` stands for.
pub ghost struct ImageBlockView {
    pub format: ImageFormatView,
    pub source: Option<Seq<u8>>,
}

impl View for ImageBlock {
    type V = ImageBlockView;

    open spec fn view(&self) -> ImageBlockView {
        ImageBlockView {
            format: self.format@,
            source: match self.source {
                Some(bytes) => Some(bytes@),
                None => None,
            },
        }
    }
}

/// A document as the provider carries it: the format and the raw bytes.
/// `source` is `None` where the block came without bytes.
#[derive(Clone, Debug, PartialEq, Eq)]
pub struct DocumentBlock {
    pub format: DocumentFormat,
    pub source: Option<Vec<u8>>,
}

/// What a `DocumentBlock` stands for.
pub ghost struct DocumentBlockView {
    pub format: DocumentFormatView,
    pub source: Option<Seq<u8>>,
}

impl View for DocumentBlock {
    type V = DocumentBlockView;

    open spec fn view(&self) -> DocumentBlockView {
        DocumentBlockView {
            format: self.format@,
            source: match self.source {
                Some(bytes) => Some(bytes@),
                None => None,
            },
        }
    }
}

/// The model's request to run a tool.
#[derive(Clone, Debug, PartialEq, Eq)]
pub struct ToolUseBlock {
    pub tool_use_id: String,
    pub name: String,
    pub input: Document,
}

/// What a `ToolUseBlock` stands for.
pub ghost struct ToolUseBlockView {
    pub tool_use_id: Seq<char>,
    pub name: Seq<char>,
    pub input: DocumentView,
}

impl View for ToolUseBlock {
    type V = ToolUseBlockView;

    open spec fn view(&self) -> ToolUseBlockView {
        ToolUseBlockView { tool_use_id: self.tool_use_id@, name: self.name@, input: self.input@ }
    }
}

/// A tool result in JSON: the document the provider sent, and beside it the
/// JSON text of that document. Whoever fills the block writes the text: to
/// print a float takes floating point arithmetic, which this library does
/// not do.
#[derive(Clone, Debug, PartialEq, Eq)]
pub struct JsonPayload {
    pub document: Document,
    pub text: String,
}

/// What a `JsonPayload` stands for.
pub ghost struct JsonPayloadView {
    pub document: DocumentView,
    pub text: Seq<char>,
}

impl View for JsonPayload {
    type V = JsonPayloadView;

    open spec fn view(&self) -> JsonPayloadView {
        JsonPayloadView { document: self.document@, text: self.text@ }
    }
}

/// One piece of a tool result as the provider carries it. `Other` stands
/// for every kind that the provider has and this library does not read.
#[derive(Clone, Debug, PartialEq, Eq)]
pub enum ToolResultContentBlock {
    Text(String),
    Image(ImageBlock),
    Json(JsonPayload),
    Document(DocumentBlock),
    Other,
}

/// What a `ToolResultContentBlock` stands for.
pub ghost enum ToolResultContentBlockView {
    Text(Seq<char>),
    Image(ImageBlockView),
    Json(JsonPayloadView),
    Document(DocumentBlockView),
    Other,
}

impl View for ToolResultContentBlock {
    type V = ToolResultContentBlockView;

    open spec fn view(&self) -> ToolResultContentBlockView {
        match self {
            ToolResultContentBlock::Text(text) => ToolResultContentBlockView::Text(text@),
            ToolResultContentBlock::Image(image) => ToolResultContentBlockView::Image(image@),
            ToolResultContentBlock::Json(payload) => ToolResultContentBlockView::Json(payload@),
            ToolResultContentBlock::Document(document) => ToolResultContentBlockView::Document(
                document@,
            ),
            ToolResultContentBlock::Other => ToolResultContentBlockView::Other,
        }
    }
}

/// What a tool gave back, as the provider carries it.
#[derive(Clone, Debug, PartialEq, Eq)]
pub struct ToolResultBlock {
    pub tool_use_id: String,
    pub content: Vec<ToolResultContentBlock>,
}

/// What a `ToolResultBlock` stands for.
pub ghost struct ToolResultBlockView {
    pub tool_use_id: Seq<char>,
    pub content: Seq<ToolResultContentBlockView>,
}

impl View for ToolResultBlock {
    type V = ToolResultBlockView;

    open spec fn view(&self) -> ToolResultBlockView {
        ToolResultBlockView {
            tool_use_id: self.tool_use_id@,
            content: self.content@.map_values(|c: ToolResultContentBlock| c@),
        }
    }
}

/// One unit of message content as the provider carries it. `Other` stands
/// for every kind that the provider has and this library does not read.
#[derive(Clone, Debug, PartialEq, Eq)]
pub enum ContentBlock {
    Text(String),
    Image(ImageBlock),
    Document(DocumentBlock),
    ToolUse(ToolUseBlock),
    ToolResult(ToolResultBlock),
    Other,
}

/// What a `ContentBlock` stands for.
pub ghost enum ContentBlockView {
    Text(Seq<char>),
    Image(ImageBlockView),
    Document(DocumentBlockView),
    ToolUse(ToolUseBlockView),
    ToolResult(ToolResultBlockView),
    Other,
}

impl View for ContentBlock {
    type V = ContentBlockView;

    open spec fn view(&self) -> ContentBlockView {
        match self {
            ContentBlock::Text(text) => ContentBlockView::Text(text@),
            ContentBlock::Image(image) => ContentBlockView::Image(image@),
            ContentBlock::Document(document) => ContentBlockView::Document(document@),
            ContentBlock::ToolUse(tool_use) => ContentBlockView::ToolUse(tool_use@),
            ContentBlock::ToolResult(result) => ContentBlockView::ToolResult(result@),
            ContentBlock::Other => ContentBlockView::Other,
        }
    }
}

/// Who a message of the provider is from. `Unknown` holds a role name that
/// is neither of the two.
#[derive(Clone, Debug, PartialEq, Eq)]
pub enum ConversationRole {
    User,
    Assistant,
    Unknown(String),
}

/// What a `ConversationRole` stands for.
pub ghost enum ConversationRoleView {
    User,
    Assistant,
    Unknown(Seq<char>),
}

impl View for ConversationRole {
    type V = ConversationRoleView;

    open spec fn view(&self) -> ConversationRoleView {
        match self {
            ConversationRole::User => ConversationRoleView::User,
            ConversationRole::Assistant => ConversationRoleView::Assistant,
            ConversationRole::Unknown(name) => ConversationRoleView::Unknown(name@),
        }
    }
}

/// One turn of a conversation as the provider carries it.
#[derive(Clone, Debug, PartialEq, Eq)]
pub struct Message {
    pub role: ConversationRole,
    pub content: Vec<ContentBlock>,
}

/// What a `Message` stands for.
pub ghost struct MessageView {
    pub role: ConversationRoleView,
    pub content: Seq<ContentBlockView>,
}

impl View for Message {
    type V = MessageView;

    open spec fn view(&self) -> MessageView {
        MessageView { role: self.role@, content: self.content@.map_values(|c: ContentBlock| c@) }
    }
}


/// What a chat call gives back: a message, or something this library does
/// not read.
#[derive(Clone, Debug, PartialEq, Eq)]
pub enum ConverseOutput {
    Message(Message),
    Unknown,
}

/// What a `ConverseOutput` stands for.
pub ghost enum ConverseOutputView {
    Message(MessageView),
    Unknown,
}

impl View for ConverseOutput {
    type V = ConverseOutputView;

    open spec fn view(&self) -> ConverseOutputView {
        match self {
            ConverseOutput::Message(message) => ConverseOutputView::Message(message@),
            ConverseOutput::Unknown => ConverseOutputView::Unknown,
        }
    }
}

/// The ways in which the service says that a call failed. `Other` stands
/// for every failure that it reports under another name or under none.
#[derive(Clone, Copy, Debug, PartialEq, Eq)]
pub enum ServiceErrorKind {
    ModelTimeout,
    AccessDenied,
    ResourceNotFound,
    Throttling,
    ServiceUnavailable,
    InternalServer,
    Validation,
    ModelNotReady,
    ModelError,
    ServiceQuotaExceeded,
    Other,
}

} // verus!
