use vstd::prelude::*;

use crate::json::{JsonValue, JsonView};

verus! {

/// How the payload of an attachment is written.
#[derive(Clone, Copy, Debug, PartialEq, Eq)]
pub enum ContentFormat {
    Base64,
    String,
}

/// The media types an image can be tagged with.
#[derive(Clone, Copy, Debug, PartialEq, Eq)]
pub enum ImageMediaType {
    JPEG,
    PNG,
    GIF,
    WEBP,
    HEIC,
    HEIF,
    SVG,
}

/// The media types a document can be tagged with.
#[derive(Clone, Copy, Debug, PartialEq, Eq)]
pub enum DocumentMediaType {
    PDF,
    TXT,
    RTF,
    HTML,
    CSS,
    MARKDOWN,
    CSV,
    XML,
    Javascript,
    Python,
}

/// How closely a model is asked to look at an image.
#[derive(Clone, Copy, Debug, PartialEq, Eq)]
pub enum ImageDetail {
    Low,
    High,
    Auto,
}

impl ImageMediaType {
    /// The MIME name of the media type.
    pub open spec fn mime_type(self) -> Seq<char> {
        match self {
            ImageMediaType::JPEG => "image/jpeg"@,
            ImageMediaType::PNG => "image/png"@,
            ImageMediaType::GIF => "image/gif"@,
            ImageMediaType::WEBP => "image/webp"@,
            ImageMediaType::HEIC => "image/heic"@,
            ImageMediaType::HEIF => "image/heif"@,
            ImageMediaType::SVG => "image/svg+xml"@,
        }
    }

    /// The MIME name of the media type.
    pub fn to_mime_type(&self) -> (name: &'static str)
        ensures
            name@ == self.mime_type(),
    {
        match self {
            ImageMediaType::JPEG => "image/jpeg",
            ImageMediaType::PNG => "image/png",
            ImageMediaType::GIF => "image/gif",
            ImageMediaType::WEBP => "image/webp",
            ImageMediaType::HEIC => "image/heic",
            ImageMediaType::HEIF => "image/heif",
            ImageMediaType::SVG => "image/svg+xml",
        }
    }
}

impl DocumentMediaType {
    /// The MIME name of the media type.
    pub open spec fn mime_type(self) -> Seq<char> {
        match self {
            DocumentMediaType::PDF => "application/pdf"@,
            DocumentMediaType::TXT => "text/plain"@,
            DocumentMediaType::RTF => "text/rtf"@,
            DocumentMediaType::HTML => "text/html"@,
            DocumentMediaType::CSS => "text/css"@,
            DocumentMediaType::MARKDOWN => "text/markdown"@,
            DocumentMediaType::CSV => "text/csv"@,
            DocumentMediaType::XML => "text/xml"@,
            DocumentMediaType::Javascript => "application/x-javascript"@,
            DocumentMediaType::Python => "application/x-python"@,
        }
    }

    /// The MIME name of the media type.
    pub fn to_mime_type(&self) -> (name: &'static str)
        ensures
            name@ == self.mime_type(),
    {
        match self {
            DocumentMediaType::PDF => "application/pdf",
            DocumentMediaType::TXT => "text/plain",
            DocumentMediaType::RTF => "text/rtf",
            DocumentMediaType::HTML => "text/html",
            DocumentMediaType::CSS => "text/css",
            DocumentMediaType::MARKDOWN => "text/markdown",
            DocumentMediaType::CSV => "text/csv",
            DocumentMediaType::XML => "text/xml",
            DocumentMediaType::Javascript => "application/x-javascript",
            DocumentMediaType::Python => "application/x-python",
        }
    }
}

/// An image attachment: the payload as text, how that text is encoded, and
/// what kind of image it is.
#[derive(Clone, Debug, PartialEq, Eq)]
pub struct Image {
    pub data: String,
    pub format: Option<ContentFormat>,
    pub media_type: Option<ImageMediaType>,
    pub detail: Option<ImageDetail>,
}

/// What a `Image` stands for.
pub ghost struct ImageView {
    pub data: Seq<char>,
    pub format: Option<ContentFormat>,
    pub media_type: Option<ImageMediaType>,
    pub detail: Option<ImageDetail>,
}

impl View for Image {
    type V = ImageView;

    open spec fn view(&self) -> ImageView {
        ImageView {
            data: self.data@,
            format: self.format,
            media_type: self.media_type,
            detail: self.detail,
        }
    }
}

/// A document attachment: the payload as text, how that text is encoded, and
/// what kind of document it is.
#[derive(Clone, Debug, PartialEq, Eq)]
pub struct Document {
    pub data: String,
    pub format: Option<ContentFormat>,
    pub media_type: Option<DocumentMediaType>,
}

/// What a `Document` stands for.
pub ghost struct AttachmentView {
    pub data: Seq<char>,
    pub format: Option<ContentFormat>,
    pub media_type: Option<DocumentMediaType>,
}

impl View for Document {
    type V = AttachmentView;

    open spec fn view(&self) -> AttachmentView {
        AttachmentView { data: self.data@, format: self.format, media_type: self.media_type }
    }
}

/// A request of the model to run a tool: the call's id, the tool's name and
/// the arguments as JSON.
#[derive(Clone, Debug, PartialEq, Eq)]
pub struct ToolCall {
    pub id: String,
    pub name: String,
    pub arguments: JsonValue,
}

/// What a `ToolCall` stands for.
pub ghost struct ToolCallView {
    pub id: Seq<char>,
    pub name: Seq<char>,
    pub arguments: JsonView,
}

impl View for ToolCall {
    type V = ToolCallView;

    open spec fn view(&self) -> ToolCallView {
        ToolCallView { id: self.id@, name: self.name@, arguments: self.arguments@ }
    }
}

/// One piece of what a tool gave back.
#[derive(Clone, Debug, PartialEq, Eq)]
pub enum ToolResultContent {
    Text(String),
    Image(Image),
}

/// What a `ToolResultContent` stands for.
pub ghost enum ToolResultContentView {
    Text(Seq<char>),
    Image(ImageView),
}

impl View for ToolResultContent {
    type V = ToolResultContentView;

    open spec fn view(&self) -> ToolResultContentView {
        match self {
            ToolResultContent::Text(text) => ToolResultContentView::Text(text@),
            ToolResultContent::Image(image) => ToolResultContentView::Image(image@),
        }
    }
}

/// What a tool gave back for the call with the given id. A well-formed
/// result has at least one piece of content.
#[derive(Clone, Debug, PartialEq, Eq)]
pub struct ToolResult {
    pub id: String,
    pub content: Vec<ToolResultContent>,
}

/// What a `ToolResult` stands for.
pub ghost struct ToolResultView {
    pub id: Seq<char>,
    pub content: Seq<ToolResultContentView>,
}

impl View for ToolResult {
    type V = ToolResultView;

    open spec fn view(&self) -> ToolResultView {
        ToolResultView {
            id: self.id@,
            content: self.content@.map_values(|c: ToolResultContent| c@),
        }
    }
}

/// What a user turn can hold. Audio is known to the framework and has no
/// counterpart at the provider.
#[derive(Clone, Debug, PartialEq, Eq)]
pub enum UserContent {
    Text(String),
    ToolResult(ToolResult),
    Image(Image),
    Audio,
    Document(Document),
}

/// What a `UserContent` stands for.
pub ghost enum UserContentView {
    Text(Seq<char>),
    ToolResult(ToolResultView),
    Image(ImageView),
    Audio,
    Document(AttachmentView),
}

impl View for UserContent {
    type V = UserContentView;

    open spec fn view(&self) -> UserContentView {
        match self {
            UserContent::Text(text) => UserContentView::Text(text@),
            UserContent::ToolResult(result) => UserContentView::ToolResult(result@),
            UserContent::Image(image) => UserContentView::Image(image@),
            UserContent::Audio => UserContentView::Audio,
            UserContent::Document(document) => UserContentView::Document(document@),
        }
    }
}

/// What an assistant turn can hold: text or a tool call, and nothing else.
#[derive(Clone, Debug, PartialEq, Eq)]
pub enum AssistantContent {
    Text(String),
    ToolCall(ToolCall),
}

/// What a `AssistantContent` stands for.
pub ghost enum AssistantContentView {
    Text(Seq<char>),
    ToolCall(ToolCallView),
}

impl View for AssistantContent {
    type V = AssistantContentView;

    open spec fn view(&self) -> AssistantContentView {
        match self {
            AssistantContent::Text(text) => AssistantContentView::Text(text@),
            AssistantContent::ToolCall(call) => AssistantContentView::ToolCall(call@),
        }
    }
}

/// One turn of a conversation. The role decides what the turn can hold. A
/// well-formed message has at least one content item.
#[allow(inconsistent_fields)]
#[derive(Clone, Debug, PartialEq, Eq)]
pub enum Message {
    User { content: Vec<UserContent> },
    Assistant { content: Vec<AssistantContent> },
}

/// What a `Message` stands for.
#[allow(inconsistent_fields)]
pub ghost enum MessageView {
    User { content: Seq<UserContentView> },
    Assistant { content: Seq<AssistantContentView> },
}

impl View for Message {
    type V = MessageView;

    open spec fn view(&self) -> MessageView {
        match self {
            Message::User { content } => MessageView::User {
                content: content@.map_values(|c: UserContent| c@),
            },
            Message::Assistant { content } => MessageView::Assistant {
                content: content@.map_values(|c: AssistantContent| c@),
            },
        }
    }
}

impl MessageView {
    /// True of a message that holds at least one content item, and whose tool
    /// results each hold at least one piece.
    pub open spec fn well_formed(self) -> bool {
        match self {
            MessageView::User { content } => content.len() > 0 && forall|i: int|
                0 <= i < content.len() ==> (#[trigger] content[i] matches UserContentView::ToolResult(
                    result,
                ) ==> result.content.len() > 0),
            MessageView::Assistant { content } => content.len() > 0,
        }
    }
}

} // verus!
