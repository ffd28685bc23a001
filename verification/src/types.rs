use vstd::prelude::*;

pub mod errors;

use crate::bedrock::{
    ContentBlock, ContentBlockView, ConversationRole, ConversationRoleView, DocumentBlock, DocumentBlockView, DocumentFormat,
    DocumentFormatView, ImageBlock, ImageBlockView, ImageFormat, ImageFormatView, ToolResultBlock,
    ToolResultBlockView, ToolResultContentBlock, ToolResultContentBlockView, ToolUseBlock,
    ToolUseBlockView,
};
use crate::{document_of_json, document_to_json, json_of_document, json_to_document};
use crate::encoding::{
    base64_decoded, base64_encoded, decode_base64, decode_error_text, encode_base64,
};
use crate::message::{
    AssistantContent, AssistantContentView, AttachmentView, ContentFormat, Document,
    DocumentMediaType, Image, ImageMediaType, ImageView, Message, MessageView, ToolCall, ToolCallView, ToolResult,
    ToolResultContent, ToolResultContentView, ToolResultView, UserContent, UserContentView,
};
use crate::types::errors::{BuildError, IntegrationError, IntegrationErrorView};
use crate::views::result_view;

verus! {

/// The media type of a provider image format, where it has one.
pub open spec fn image_media_type(format: ImageFormatView) -> Option<ImageMediaType> {
    match format {
        ImageFormatView::Gif => Some(ImageMediaType::GIF),
        ImageFormatView::Jpeg => Some(ImageMediaType::JPEG),
        ImageFormatView::Png => Some(ImageMediaType::PNG),
        ImageFormatView::Webp => Some(ImageMediaType::WEBP),
        ImageFormatView::Unknown(_) => None,
    }
}

/// The provider format of an image media type, where it has one.
pub open spec fn image_format(media_type: ImageMediaType) -> Option<ImageFormatView> {
    match media_type {
        ImageMediaType::JPEG => Some(ImageFormatView::Jpeg),
        ImageMediaType::PNG => Some(ImageFormatView::Png),
        ImageMediaType::GIF => Some(ImageFormatView::Gif),
        ImageMediaType::WEBP => Some(ImageFormatView::Webp),
        _ => None,
    }
}

/// The media type of a provider document format, where it has one.
pub open spec fn document_media_type(format: DocumentFormatView) -> Option<DocumentMediaType> {
    match format {
        DocumentFormatView::Csv => Some(DocumentMediaType::CSV),
        DocumentFormatView::Html => Some(DocumentMediaType::HTML),
        DocumentFormatView::Md => Some(DocumentMediaType::MARKDOWN),
        DocumentFormatView::Pdf => Some(DocumentMediaType::PDF),
        DocumentFormatView::Txt => Some(DocumentMediaType::TXT),
        _ => None,
    }
}

/// The provider format of a document media type, where it has one.
pub open spec fn document_format(media_type: DocumentMediaType) -> Option<DocumentFormatView> {
    match media_type {
        DocumentMediaType::PDF => Some(DocumentFormatView::Pdf),
        DocumentMediaType::TXT => Some(DocumentFormatView::Txt),
        DocumentMediaType::HTML => Some(DocumentFormatView::Html),
        DocumentMediaType::MARKDOWN => Some(DocumentFormatView::Md),
        DocumentMediaType::CSV => Some(DocumentFormatView::Csv),
        _ => None,
    }
}

/// The image that a provider block is read as. A format outside the four
/// that have a media type is refused with its name; then a block without
/// bytes is refused; else the bytes are written in base64.
pub open spec fn image_of_block(block: ImageBlockView) -> Result<ImageView, IntegrationErrorView> {
    match image_media_type(block.format) {
        None => Err(IntegrationErrorView::UnsupportedFormat(block.format.name())),
        Some(media_type) => match block.source {
            None => Err(IntegrationErrorView::ModelError("Image source is missing"@)),
            Some(bytes) => Ok(
                ImageView {
                    data: base64_encoded(bytes),
                    format: Some(ContentFormat::Base64),
                    media_type: Some(media_type),
                    detail: None,
                },
            ),
        },
    }
}

/// The provider block that an image is written as. A media type outside the
/// four that have a provider format is refused with its MIME name; then a
/// payload that is no base64 is refused; then an image without a media type
/// is refused, since a block must have a format.
pub open spec fn block_of_image(image: ImageView) -> Result<ImageBlockView, IntegrationErrorView> {
    if image.media_type is Some && image_format(image.media_type->Some_0) is None {
        Err(IntegrationErrorView::UnsupportedFormat(image.media_type->Some_0.mime_type()))
    } else {
        match base64_decoded(image.data) {
            None => Err(IntegrationErrorView::ConversionError),
            Some(bytes) => match image.media_type {
                None => Err(
                    IntegrationErrorView::BuildError {
                        field: "format"@,
                        details: "format was not specified but it is required when building ImageBlock"@,
                    },
                ),
                Some(media_type) => Ok(
                    ImageBlockView {
                        format: image_format(media_type)->Some_0,
                        source: Some(bytes),
                    },
                ),
            },
        }
    }
}

/// The document that a provider block is read as. A format outside the five
/// that have a media type is refused with its name; then a block without
/// bytes is refused; else the bytes are written in base64.
pub open spec fn document_of_block(block: DocumentBlockView) -> Result<
    AttachmentView,
    IntegrationErrorView,
> {
    match document_media_type(block.format) {
        None => Err(IntegrationErrorView::UnsupportedFormat(block.format.name())),
        Some(media_type) => match block.source {
            None => Err(IntegrationErrorView::ModelError("Document source is missing"@)),
            Some(bytes) => Ok(
                AttachmentView {
                    data: base64_encoded(bytes),
                    format: Some(ContentFormat::Base64),
                    media_type: Some(media_type),
                },
            ),
        },
    }
}

/// The provider block that a document is written as. A media type outside
/// the five that have a provider format is refused with its MIME name; then
/// a payload that is no base64 is refused; then a document without a media
/// type is refused, since a block must have a format.
pub open spec fn block_of_document(document: AttachmentView) -> Result<
    DocumentBlockView,
    IntegrationErrorView,
> {
    if document.media_type is Some && document_format(document.media_type->Some_0) is None {
        Err(IntegrationErrorView::UnsupportedFormat(document.media_type->Some_0.mime_type()))
    } else {
        match base64_decoded(document.data) {
            None => Err(IntegrationErrorView::ConversionError),
            Some(bytes) => match document.media_type {
                None => Err(
                    IntegrationErrorView::BuildError {
                        field: "format"@,
                        details: "format was not specified but it is required when building DocumentBlock"@,
                    },
                ),
                Some(media_type) => Ok(
                    DocumentBlockView {
                        format: document_format(media_type)->Some_0,
                        source: Some(bytes),
                    },
                ),
            },
        }
    }
}

/// Reads a provider image block as an image. Where it succeeds, writing the
/// image back gives the block again, bytes and format.
pub fn into_image(image: ImageBlock) -> (result: Result<Image, IntegrationError>)
    ensures
        result_view(result) == image_of_block(image@),
        result matches Ok(read) ==> block_of_image(read@) == Ok::<
            ImageBlockView,
            IntegrationErrorView,
        >(image@),
{
    let media_type = match &image.format {
        ImageFormat::Gif => ImageMediaType::GIF,
        ImageFormat::Jpeg => ImageMediaType::JPEG,
        ImageFormat::Png => ImageMediaType::PNG,
        ImageFormat::Webp => ImageMediaType::WEBP,
        ImageFormat::Unknown(name) => {
            return Err(IntegrationError::UnsupportedFormat(name.clone()));
        },
    };
    let data = match &image.source {
        Some(bytes) => encode_base64(bytes),
        None => {
            return Err(IntegrationError::ModelError("Image source is missing"));
        },
    };
    Ok(
        Image {
            data,
            format: Some(ContentFormat::Base64),
            media_type: Some(media_type),
            detail: None,
        },
    )
}

/// Writes an image as a provider image block.
pub fn from_image(image: Image) -> (result: Result<ImageBlock, IntegrationError>)
    ensures
        result_view(result) == block_of_image(image@),
{
    let format = match image.media_type {
        Some(ImageMediaType::JPEG) => Some(ImageFormat::Jpeg),
        Some(ImageMediaType::PNG) => Some(ImageFormat::Png),
        Some(ImageMediaType::GIF) => Some(ImageFormat::Gif),
        Some(ImageMediaType::WEBP) => Some(ImageFormat::Webp),
        Some(other) => {
            let name = other.to_mime_type();
            return Err(IntegrationError::UnsupportedFormat(name.to_owned()));
        },
        None => None,
    };
    let bytes = match decode_base64(image.data.as_str()) {
        Ok(bytes) => bytes,
        Err(error) => {
            return Err(IntegrationError::ConversionError(decode_error_text(&error)));
        },
    };
    match format {
        Some(format) => Ok(ImageBlock { format, source: Some(bytes) }),
        None => Err(
            IntegrationError::BuildError(
                BuildError {
                    field: "format",
                    details: "format was not specified but it is required when building ImageBlock",
                },
            ),
        ),
    }
}

/// Reads a provider document block as a document. Where it succeeds, writing
/// the document back gives the block again, bytes and format.
pub fn into_document(document: DocumentBlock) -> (result: Result<Document, IntegrationError>)
    ensures
        result_view(result) == document_of_block(document@),
        result matches Ok(read) ==> block_of_document(read@) == Ok::<
            DocumentBlockView,
            IntegrationErrorView,
        >(document@),
{
    let media_type = match &document.format {
        DocumentFormat::Csv => DocumentMediaType::CSV,
        DocumentFormat::Html => DocumentMediaType::HTML,
        DocumentFormat::Md => DocumentMediaType::MARKDOWN,
        DocumentFormat::Pdf => DocumentMediaType::PDF,
        DocumentFormat::Txt => DocumentMediaType::TXT,
        other => {
            let name = other.as_str();
            return Err(IntegrationError::UnsupportedFormat(name.to_owned()));
        },
    };
    let data = match &document.source {
        Some(bytes) => encode_base64(bytes),
        None => {
            return Err(IntegrationError::ModelError("Document source is missing"));
        },
    };
    Ok(Document { data, format: Some(ContentFormat::Base64), media_type: Some(media_type) })
}

/// Writes a document as a provider document block.
pub fn from_document(document: Document) -> (result: Result<DocumentBlock, IntegrationError>)
    ensures
        result_view(result) == block_of_document(document@),
{
    let format = match document.media_type {
        Some(DocumentMediaType::PDF) => Some(DocumentFormat::Pdf),
        Some(DocumentMediaType::TXT) => Some(DocumentFormat::Txt),
        Some(DocumentMediaType::HTML) => Some(DocumentFormat::Html),
        Some(DocumentMediaType::MARKDOWN) => Some(DocumentFormat::Md),
        Some(DocumentMediaType::CSV) => Some(DocumentFormat::Csv),
        Some(other) => {
            let name = other.to_mime_type();
            return Err(IntegrationError::UnsupportedFormat(name.to_owned()));
        },
        None => None,
    };
    let bytes = match decode_base64(document.data.as_str()) {
        Ok(bytes) => bytes,
        Err(error) => {
            return Err(IntegrationError::ConversionError(decode_error_text(&error)));
        },
    };
    match format {
        Some(format) => Ok(DocumentBlock { format, source: Some(bytes) }),
        None => Err(
            IntegrationError::BuildError(
                BuildError {
                    field: "format",
                    details: "format was not specified but it is required when building DocumentBlock",
                },
            ),
        ),
    }
}


/// The piece of a tool result that a provider block is read as. Text stays
/// text, JSON becomes its text, an image is read as an image, and every
/// other kind is refused.
pub open spec fn tool_result_content_of_block(block: ToolResultContentBlockView) -> Result<
    ToolResultContentView,
    IntegrationErrorView,
> {
    match block {
        ToolResultContentBlockView::Image(image) => match image_of_block(image) {
            Ok(read) => Ok(ToolResultContentView::Image(read)),
            Err(error) => Err(error),
        },
        ToolResultContentBlockView::Json(payload) => Ok(ToolResultContentView::Text(payload.text)),
        ToolResultContentBlockView::Text(text) => Ok(ToolResultContentView::Text(text)),
        _ => Err(
            IntegrationErrorView::UnsupportedFeature(
                "ToolResultContentBlock contains unsupported variant"@,
            ),
        ),
    }
}

/// The provider block that a piece of a tool result is written as.
pub open spec fn block_of_tool_result_content(content: ToolResultContentView) -> Result<
    ToolResultContentBlockView,
    IntegrationErrorView,
> {
    match content {
        ToolResultContentView::Text(text) => Ok(ToolResultContentBlockView::Text(text)),
        ToolResultContentView::Image(image) => match block_of_image(image) {
            Ok(block) => Ok(ToolResultContentBlockView::Image(block)),
            Err(error) => Err(error),
        },
    }
}

/// The pieces that the blocks of a tool result are read as, in order,
/// without the blocks that are refused.
pub open spec fn tool_result_contents_of_blocks(blocks: Seq<ToolResultContentBlockView>) -> Seq<
    ToolResultContentView,
>
    decreases blocks.len(),
{
    if blocks.len() == 0 {
        Seq::empty()
    } else {
        let before = tool_result_contents_of_blocks(blocks.drop_last());
        match tool_result_content_of_block(blocks.last()) {
            Ok(content) => before.push(content),
            Err(_) => before,
        }
    }
}

/// The blocks that the pieces of a tool result are written as, in order,
/// without the pieces that are refused.
pub open spec fn blocks_of_tool_result_contents(contents: Seq<ToolResultContentView>) -> Seq<
    ToolResultContentBlockView,
>
    decreases contents.len(),
{
    if contents.len() == 0 {
        Seq::empty()
    } else {
        let before = blocks_of_tool_result_contents(contents.drop_last());
        match block_of_tool_result_content(contents.last()) {
            Ok(block) => before.push(block),
            Err(_) => before,
        }
    }
}

/// The user content that a provider block is read as. Text, an image and a
/// document are read as what they are. A tool result keeps the pieces that
/// can be read and is refused where none can. Every other kind is refused.
pub open spec fn user_content_of_block(block: ContentBlockView) -> Result<
    UserContentView,
    IntegrationErrorView,
> {
    match block {
        ContentBlockView::Text(text) => Ok(UserContentView::Text(text)),
        ContentBlockView::ToolResult(result) => {
            let content = tool_result_contents_of_blocks(result.content);
            if content.len() == 0 {
                Err(
                    IntegrationErrorView::UnsupportedFeature(
                        "ToolResult returned invalid response"@,
                    ),
                )
            } else {
                Ok(UserContentView::ToolResult(ToolResultView { id: result.tool_use_id, content }))
            }
        },
        ContentBlockView::Document(document) => match document_of_block(document) {
            Ok(read) => Ok(UserContentView::Document(read)),
            Err(error) => Err(error),
        },
        ContentBlockView::Image(image) => match image_of_block(image) {
            Ok(read) => Ok(UserContentView::Image(read)),
            Err(error) => Err(error),
        },
        _ => Err(
            IntegrationErrorView::UnsupportedFeature(
                "ToolResultContentBlock contains unsupported variant"@,
            ),
        ),
    }
}

/// The provider block that user content is written as. A tool result keeps
/// the pieces that can be written. Audio is refused by name.
pub open spec fn block_of_user_content(content: UserContentView) -> Result<
    ContentBlockView,
    IntegrationErrorView,
> {
    match content {
        UserContentView::Text(text) => Ok(ContentBlockView::Text(text)),
        UserContentView::ToolResult(result) => Ok(
            ContentBlockView::ToolResult(
                ToolResultBlockView {
                    tool_use_id: result.id,
                    content: blocks_of_tool_result_contents(result.content),
                },
            ),
        ),
        UserContentView::Image(image) => match block_of_image(image) {
            Ok(block) => Ok(ContentBlockView::Image(block)),
            Err(error) => Err(error),
        },
        UserContentView::Document(document) => match block_of_document(document) {
            Ok(block) => Ok(ContentBlockView::Document(block)),
            Err(error) => Err(error),
        },
        UserContentView::Audio => Err(IntegrationErrorView::UnsupportedFeature("Audio"@)),
    }
}

/// The assistant content that a provider block is read as: text, or a tool
/// call with its arguments as JSON. Every other kind of block, an image
/// among them, is refused.
pub open spec fn assistant_content_of_block(block: ContentBlockView) -> Result<
    AssistantContentView,
    IntegrationErrorView,
> {
    match block {
        ContentBlockView::Text(text) => Ok(AssistantContentView::Text(text)),
        ContentBlockView::ToolUse(tool_use) => Ok(
            AssistantContentView::ToolCall(
                ToolCallView {
                    id: tool_use.tool_use_id,
                    name: tool_use.name,
                    arguments: json_of_document(tool_use.input),
                },
            ),
        ),
        _ => Err(
            IntegrationErrorView::UnsupportedFeature(
                "AWS Bedrock returned unsupported ContentBlock"@,
            ),
        ),
    }
}

/// The provider block that assistant content is written as.
pub open spec fn block_of_assistant_content(content: AssistantContentView) -> ContentBlockView {
    match content {
        AssistantContentView::Text(text) => ContentBlockView::Text(text),
        AssistantContentView::ToolCall(call) => ContentBlockView::ToolUse(
            ToolUseBlockView {
                tool_use_id: call.id,
                name: call.name,
                input: document_of_json(call.arguments),
            },
        ),
    }
}

/// Reads one block of a provider tool result.
pub fn into_tool_result(tool_result_content_block: ToolResultContentBlock) -> (result: Result<
    ToolResultContent,
    IntegrationError,
>)
    ensures
        result_view(result) == tool_result_content_of_block(tool_result_content_block@),
{
    match tool_result_content_block {
        ToolResultContentBlock::Image(image) => {
            match into_image(image) {
                Ok(read) => Ok(ToolResultContent::Image(read)),
                Err(error) => Err(error),
            }
        },
        ToolResultContentBlock::Json(payload) => Ok(ToolResultContent::Text(payload.text)),
        ToolResultContentBlock::Text(text) => Ok(ToolResultContent::Text(text)),
        _ => Err(
            IntegrationError::UnsupportedFeature(
                "ToolResultContentBlock contains unsupported variant",
            ),
        ),
    }
}

/// Writes one piece of a tool result as a provider block.
pub fn from_tool_result(tool_result_content: ToolResultContent) -> (result: Result<
    ToolResultContentBlock,
    IntegrationError,
>)
    ensures
        result_view(result) == block_of_tool_result_content(tool_result_content@),
{
    match tool_result_content {
        ToolResultContent::Text(text) => Ok(ToolResultContentBlock::Text(text)),
        ToolResultContent::Image(image) => {
            match from_image(image) {
                Ok(block) => Ok(ToolResultContentBlock::Image(block)),
                Err(error) => Err(error),
            }
        },
    }
}

/// Reads a provider block as the content of a user turn.
pub fn into_user_content(content_block: ContentBlock) -> (result: Result<
    UserContent,
    IntegrationError,
>)
    ensures
        result_view(result) == user_content_of_block(content_block@),
{
    match content_block {
        ContentBlock::Text(text) => Ok(UserContent::Text(text)),
        ContentBlock::ToolResult(tool_result) => {
            let ToolResultBlock { tool_use_id, content } = tool_result;
            let ghost source = content@;
            let ghost blocks = source.map_values(|c: ToolResultContentBlock| c@);
            let ghost mut read: Seq<ToolResultContentView> = Seq::empty();
            let mut tool_results: Vec<ToolResultContent> = Vec::new();
            for block in iter: content
                invariant
                    iter.seq() == source,
                    blocks == source.map_values(|c: ToolResultContentBlock| c@),
                    read == tool_result_contents_of_blocks(blocks.take(iter.index() as int)),
                    tool_results@.len() == read.len(),
                    forall|k: int|
                        0 <= k < read.len() ==> (#[trigger] tool_results@[k])@ == read[k],
            {
                proof {
                    let i = iter.index() as int;
                    assert(blocks.take(i + 1).drop_last() =~= blocks.take(i));
                    assert(blocks.take(i + 1).last() == block@);
                }
                match into_tool_result(block) {
                    Ok(piece) => {
                        proof {
                            read = read.push(piece@);
                        }
                        tool_results.push(piece);
                    },
                    Err(_) => {},
                }
            }
            proof {
                assert(blocks.take(source.len() as int) =~= blocks);
                assert(tool_results@.map_values(|c: ToolResultContent| c@) =~= read);
            }
            if tool_results.len() == 0 {
                Err(IntegrationError::UnsupportedFeature("ToolResult returned invalid response"))
            } else {
                Ok(UserContent::ToolResult(ToolResult { id: tool_use_id, content: tool_results }))
            }
        },
        ContentBlock::Document(document) => {
            match into_document(document) {
                Ok(read) => Ok(UserContent::Document(read)),
                Err(error) => Err(error),
            }
        },
        ContentBlock::Image(image) => {
            match into_image(image) {
                Ok(read) => Ok(UserContent::Image(read)),
                Err(error) => Err(error),
            }
        },
        _ => Err(
            IntegrationError::UnsupportedFeature(
                "ToolResultContentBlock contains unsupported variant",
            ),
        ),
    }
}

/// Writes the content of a user turn as a provider block.
pub fn from_user_content(content: UserContent) -> (result: Result<ContentBlock, IntegrationError>)
    ensures
        result_view(result) == block_of_user_content(content@),
{
    match content {
        UserContent::Text(text) => Ok(ContentBlock::Text(text)),
        UserContent::ToolResult(tool_result) => {
            let ToolResult { id, content } = tool_result;
            let ghost source = content@;
            let ghost pieces = source.map_values(|c: ToolResultContent| c@);
            let ghost mut written: Seq<ToolResultContentBlockView> = Seq::empty();
            let mut blocks: Vec<ToolResultContentBlock> = Vec::new();
            for piece in iter: content
                invariant
                    iter.seq() == source,
                    pieces == source.map_values(|c: ToolResultContent| c@),
                    written == blocks_of_tool_result_contents(pieces.take(iter.index() as int)),
                    blocks@.len() == written.len(),
                    forall|k: int| 0 <= k < written.len() ==> (#[trigger] blocks@[k])@ == written[k],
            {
                proof {
                    let i = iter.index() as int;
                    assert(pieces.take(i + 1).drop_last() =~= pieces.take(i));
                    assert(pieces.take(i + 1).last() == piece@);
                }
                match from_tool_result(piece) {
                    Ok(block) => {
                        proof {
                            written = written.push(block@);
                        }
                        blocks.push(block);
                    },
                    Err(_) => {},
                }
            }
            proof {
                assert(pieces.take(source.len() as int) =~= pieces);
                assert(blocks@.map_values(|c: ToolResultContentBlock| c@) =~= written);
            }
            Ok(ContentBlock::ToolResult(ToolResultBlock { tool_use_id: id, content: blocks }))
        },
        UserContent::Image(image) => {
            match from_image(image) {
                Ok(block) => Ok(ContentBlock::Image(block)),
                Err(error) => Err(error),
            }
        },
        UserContent::Document(document) => {
            match from_document(document) {
                Ok(block) => Ok(ContentBlock::Document(block)),
                Err(error) => Err(error),
            }
        },
        UserContent::Audio => Err(IntegrationError::UnsupportedFeature("Audio")),
    }
}

/// Reads a provider block as the content of an assistant turn.
pub fn into_assistent_content(content_block: ContentBlock) -> (result: Result<
    AssistantContent,
    IntegrationError,
>)
    ensures
        result_view(result) == assistant_content_of_block(content_block@),
{
    match content_block {
        ContentBlock::Text(text) => Ok(AssistantContent::Text(text)),
        ContentBlock::ToolUse(tool_use_block) => {
            let ToolUseBlock { tool_use_id, name, input } = tool_use_block;
            Ok(
                AssistantContent::ToolCall(
                    ToolCall { id: tool_use_id, name, arguments: document_to_json(input) },
                ),
            )
        },
        _ => Err(
            IntegrationError::UnsupportedFeature("AWS Bedrock returned unsupported ContentBlock"),
        ),
    }
}

/// Writes the content of an assistant turn as a provider block. It never
/// fails: both kinds of assistant content have a block.
pub fn from_assistent_content(content: AssistantContent) -> (result: Result<
    ContentBlock,
    IntegrationError,
>)
    ensures
        result matches Ok(block) && block@ == block_of_assistant_content(content@),
{
    match content {
        AssistantContent::Text(text) => Ok(ContentBlock::Text(text)),
        AssistantContent::ToolCall(tool_call) => {
            let ToolCall { id, name, arguments } = tool_call;
            Ok(
                ContentBlock::ToolUse(
                    ToolUseBlock { tool_use_id: id, name, input: json_to_document(arguments) },
                ),
            )
        },
    }
}


/// The provider blocks that the content of a user turn is written as, in
/// order, without the items that are refused.
pub open spec fn blocks_of_user_contents(contents: Seq<UserContentView>) -> Seq<ContentBlockView>
    decreases contents.len(),
{
    if contents.len() == 0 {
        Seq::empty()
    } else {
        let before = blocks_of_user_contents(contents.drop_last());
        match block_of_user_content(contents.last()) {
            Ok(block) => before.push(block),
            Err(_) => before,
        }
    }
}

/// The provider blocks that the content of an assistant turn is written as,
/// in order.
pub open spec fn blocks_of_assistant_contents(contents: Seq<AssistantContentView>) -> Seq<
    ContentBlockView,
> {
    contents.map_values(|content: AssistantContentView| block_of_assistant_content(content))
}

/// The user content that provider blocks are read as, in order, without the
/// blocks that are refused.
pub open spec fn user_contents_of_blocks(blocks: Seq<ContentBlockView>) -> Seq<UserContentView>
    decreases blocks.len(),
{
    if blocks.len() == 0 {
        Seq::empty()
    } else {
        let before = user_contents_of_blocks(blocks.drop_last());
        match user_content_of_block(blocks.last()) {
            Ok(content) => before.push(content),
            Err(_) => before,
        }
    }
}

/// The assistant content that provider blocks are read as, in order, without
/// the blocks that are refused.
pub open spec fn assistant_contents_of_blocks(blocks: Seq<ContentBlockView>) -> Seq<
    AssistantContentView,
>
    decreases blocks.len(),
{
    if blocks.len() == 0 {
        Seq::empty()
    } else {
        let before = assistant_contents_of_blocks(blocks.drop_last());
        match assistant_content_of_block(blocks.last()) {
            Ok(content) => before.push(content),
            Err(_) => before,
        }
    }
}

/// The provider message that a turn is written as: the role of the turn,
/// and the blocks of the content that can be written.
pub open spec fn provider_message_of(message: MessageView) -> crate::bedrock::MessageView {
    match message {
        MessageView::User { content } => crate::bedrock::MessageView {
            role: ConversationRoleView::User,
            content: blocks_of_user_contents(content),
        },
        MessageView::Assistant { content } => crate::bedrock::MessageView {
            role: ConversationRoleView::Assistant,
            content: blocks_of_assistant_contents(content),
        },
    }
}

/// The turn that a provider message is read as. A role that is neither user
/// nor assistant is refused. The content is what can be read of the blocks
/// for that role, and a message of which nothing can be read is refused.
pub open spec fn message_of_provider(message: crate::bedrock::MessageView) -> Result<
    MessageView,
    IntegrationErrorView,
> {
    match message.role {
        ConversationRoleView::Assistant => {
            let content = assistant_contents_of_blocks(message.content);
            if content.len() == 0 {
                Err(IntegrationErrorView::UnsupportedFeature("Message returned invalid response"@))
            } else {
                Ok(MessageView::Assistant { content })
            }
        },
        ConversationRoleView::User => {
            let content = user_contents_of_blocks(message.content);
            if content.len() == 0 {
                Err(IntegrationErrorView::UnsupportedFeature("Message returned invalid response"@))
            } else {
                Ok(MessageView::User { content })
            }
        },
        ConversationRoleView::Unknown(_) => Err(
            IntegrationErrorView::UnsupportedFeature(
                "AWS Bedrock returned unsupported ConversationRole"@,
            ),
        ),
    }
}

/// Writes a turn as a provider message. It never fails: an item that cannot
/// be written is left out, and the others keep their order.
pub fn from_message(message: Message) -> (result: Result<
    crate::bedrock::Message,
    IntegrationError,
>)
    ensures
        result matches Ok(written) && written@ == provider_message_of(message@),
{
    match message {
        Message::User { content } => {
            let ghost source = content@;
            let ghost items = source.map_values(|c: UserContent| c@);
            let ghost mut written: Seq<ContentBlockView> = Seq::empty();
            let mut blocks: Vec<ContentBlock> = Vec::new();
            for item in iter: content
                invariant
                    iter.seq() == source,
                    items == source.map_values(|c: UserContent| c@),
                    written == blocks_of_user_contents(items.take(iter.index() as int)),
                    blocks@.len() == written.len(),
                    forall|k: int| 0 <= k < written.len() ==> (#[trigger] blocks@[k])@ == written[k],
            {
                proof {
                    let i = iter.index() as int;
                    assert(items.take(i + 1).drop_last() =~= items.take(i));
                    assert(items.take(i + 1).last() == item@);
                }
                match from_user_content(item) {
                    Ok(block) => {
                        proof {
                            written = written.push(block@);
                        }
                        blocks.push(block);
                    },
                    Err(_) => {},
                }
            }
            proof {
                assert(items.take(source.len() as int) =~= items);
                assert(blocks@.map_values(|c: ContentBlock| c@) =~= written);
            }
            Ok(crate::bedrock::Message { role: ConversationRole::User, content: blocks })
        },
        Message::Assistant { content } => {
            let ghost source = content@;
            let mut blocks: Vec<ContentBlock> = Vec::new();
            for item in iter: content
                invariant
                    iter.seq() == source,
                    blocks@.len() == iter.index(),
                    forall|k: int|
                        0 <= k < blocks@.len() ==> (#[trigger] blocks@[k])@
                            == block_of_assistant_content(source[k]@),
            {
                match from_assistent_content(item) {
                    Ok(block) => {
                        blocks.push(block);
                    },
                    Err(_) => {},
                }
            }
            proof {
                assert(blocks@.map_values(|c: ContentBlock| c@) =~= blocks_of_assistant_contents(
                    source.map_values(|c: AssistantContent| c@),
                ));
            }
            Ok(crate::bedrock::Message { role: ConversationRole::Assistant, content: blocks })
        },
    }
}

/// Reads a provider message as a turn.
pub fn into_message(message: crate::bedrock::Message) -> (result: Result<
    Message,
    IntegrationError,
>)
    ensures
        result_view(result) == message_of_provider(message@),
        result matches Ok(read) ==> read@.well_formed(),
{
    let crate::bedrock::Message { role, content } = message;
    let ghost source = content@;
    let ghost blocks = source.map_values(|c: ContentBlock| c@);
    match role {
        ConversationRole::Assistant => {
            let ghost mut read: Seq<AssistantContentView> = Seq::empty();
            let mut items: Vec<AssistantContent> = Vec::new();
            for block in iter: content
                invariant
                    iter.seq() == source,
                    blocks == source.map_values(|c: ContentBlock| c@),
                    read == assistant_contents_of_blocks(blocks.take(iter.index() as int)),
                    items@.len() == read.len(),
                    forall|k: int| 0 <= k < read.len() ==> (#[trigger] items@[k])@ == read[k],
            {
                proof {
                    let i = iter.index() as int;
                    assert(blocks.take(i + 1).drop_last() =~= blocks.take(i));
                    assert(blocks.take(i + 1).last() == block@);
                }
                match into_assistent_content(block) {
                    Ok(item) => {
                        proof {
                            read = read.push(item@);
                        }
                        items.push(item);
                    },
                    Err(_) => {},
                }
            }
            proof {
                assert(blocks.take(source.len() as int) =~= blocks);
                assert(items@.map_values(|c: AssistantContent| c@) =~= read);
            }
            if items.len() == 0 {
                Err(IntegrationError::UnsupportedFeature("Message returned invalid response"))
            } else {
                Ok(Message::Assistant { content: items })
            }
        },
        ConversationRole::User => {
            let ghost mut read: Seq<UserContentView> = Seq::empty();
            let mut items: Vec<UserContent> = Vec::new();
            for block in iter: content
                invariant
                    iter.seq() == source,
                    blocks == source.map_values(|c: ContentBlock| c@),
                    read == user_contents_of_blocks(blocks.take(iter.index() as int)),
                    items@.len() == read.len(),
                    forall|k: int| 0 <= k < read.len() ==> (#[trigger] items@[k])@ == read[k],
                    forall|k: int|
                        0 <= k < read.len() ==> (#[trigger] read[k] matches UserContentView::ToolResult(
                            result,
                        ) ==> result.content.len() > 0),
            {
                proof {
                    let i = iter.index() as int;
                    assert(blocks.take(i + 1).drop_last() =~= blocks.take(i));
                    assert(blocks.take(i + 1).last() == block@);
                }
                match into_user_content(block) {
                    Ok(item) => {
                        proof {
                            read = read.push(item@);
                        }
                        items.push(item);
                    },
                    Err(_) => {},
                }
            }
            proof {
                assert(blocks.take(source.len() as int) =~= blocks);
                assert(items@.map_values(|c: UserContent| c@) =~= read);
            }
            if items.len() == 0 {
                Err(IntegrationError::UnsupportedFeature("Message returned invalid response"))
            } else {
                Ok(Message::User { content: items })
            }
        },
        ConversationRole::Unknown(_) => Err(
            IntegrationError::UnsupportedFeature(
                "AWS Bedrock returned unsupported ConversationRole",
            ),
        ),
    }
}


/// No image can stand in an assistant turn: an image block is refused as
/// assistant content, whatever it holds, and so a provider message from the
/// assistant that holds nothing but images is refused as a whole.
pub proof fn lemma_assistant_has_no_image(message: crate::bedrock::MessageView)
    requires
        message.role == ConversationRoleView::Assistant,
        forall|i: int| 0 <= i < message.content.len() ==> #[trigger] message.content[i] is Image,
    ensures
        forall|i: int|
            0 <= i < message.content.len() ==> assistant_content_of_block(
                #[trigger] message.content[i],
            ) == Err::<AssistantContentView, IntegrationErrorView>(
                IntegrationErrorView::UnsupportedFeature(
                    "AWS Bedrock returned unsupported ContentBlock"@,
                ),
            ),
        message_of_provider(message) == Err::<MessageView, IntegrationErrorView>(
            IntegrationErrorView::UnsupportedFeature("Message returned invalid response"@),
        ),
{
    lemma_only_images_give_no_assistant_content(message.content);
}

/// Blocks that are all images give no assistant content.
proof fn lemma_only_images_give_no_assistant_content(blocks: Seq<ContentBlockView>)
    requires
        forall|i: int| 0 <= i < blocks.len() ==> #[trigger] blocks[i] is Image,
    ensures
        assistant_contents_of_blocks(blocks).len() == 0,
    decreases blocks.len(),
{
    if blocks.len() > 0 {
        assert(blocks.last() is Image);
        lemma_only_images_give_no_assistant_content(blocks.drop_last());
    }
}

} // verus!
