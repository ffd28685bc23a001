use base64::prelude::BASE64_STANDARD;
use base64::Engine;
use rig_bedrock::bedrock::{
    ContentBlock, ConversationRole, DocumentBlock, DocumentFormat, ImageBlock, ImageFormat,
    JsonPayload, ToolResultBlock, ToolResultContentBlock, ToolUseBlock,
};
use rig_bedrock::document::{Document as ProviderDocument, Number};
use rig_bedrock::json::{JsonNumber, JsonValue};
use rig_bedrock::message::{
    AssistantContent, ContentFormat, Document, DocumentMediaType, Image, ImageMediaType, Message,
    ToolCall, ToolResult, ToolResultContent, UserContent,
};
use rig_bedrock::types::errors::{BuildError, IntegrationError};
use rig_bedrock::types::{
    from_assistent_content, from_document, from_image, from_message, from_tool_result,
    from_user_content, into_assistent_content, into_document, into_image, into_message,
    into_tool_result, into_user_content,
};

fn text(s: &str) -> String {
    String::from(s)
}

fn png(bytes: &[u8]) -> ImageBlock {
    ImageBlock {
        format: ImageFormat::Png,
        source: Some(bytes.to_vec()),
    }
}

fn base64_image(data: &str, media_type: Option<ImageMediaType>) -> Image {
    Image {
        data: text(data),
        format: Some(ContentFormat::Base64),
        media_type,
        detail: None,
    }
}

#[test]
fn image_block_is_read_with_base64_payload() {
    let image = into_image(png(b"hello world~")).unwrap();
    assert_eq!(image.data, "aGVsbG8gd29ybGR+");
    assert_eq!(image.data, BASE64_STANDARD.encode(b"hello world~"));
    assert_eq!(image.format, Some(ContentFormat::Base64));
    assert_eq!(image.media_type, Some(ImageMediaType::PNG));
    assert_eq!(image.detail, None);
}

#[test]
fn image_is_written_with_raw_bytes() {
    let block = from_image(base64_image("aGVsbG8gd29ybGR+", Some(ImageMediaType::JPEG))).unwrap();
    assert_eq!(block.format, ImageFormat::Jpeg);
    assert_eq!(block.source, Some(b"hello world~".to_vec()));
}

#[test]
fn image_round_trip_for_every_supported_format() {
    let payloads: [&[u8]; 4] = [b"", b"a", b"\x00\xff\x10\x80", b"some longer payload!"];
    for payload in payloads {
        for (format, media_type) in [
            (ImageFormat::Gif, ImageMediaType::GIF),
            (ImageFormat::Jpeg, ImageMediaType::JPEG),
            (ImageFormat::Png, ImageMediaType::PNG),
            (ImageFormat::Webp, ImageMediaType::WEBP),
        ] {
            let image = into_image(ImageBlock {
                format,
                source: Some(payload.to_vec()),
            })
            .unwrap();
            assert_eq!(image.media_type, Some(media_type));
            let block = from_image(image).unwrap();
            assert_eq!(block.source, Some(payload.to_vec()));
            assert_eq!(into_image(block).unwrap().media_type, Some(media_type));
        }
    }
}

#[test]
fn document_round_trip_for_every_supported_format() {
    let payload = b"%PDF-1.7 \x00\x01\x02";
    for (format, media_type) in [
        (DocumentFormat::Csv, DocumentMediaType::CSV),
        (DocumentFormat::Html, DocumentMediaType::HTML),
        (DocumentFormat::Md, DocumentMediaType::MARKDOWN),
        (DocumentFormat::Pdf, DocumentMediaType::PDF),
        (DocumentFormat::Txt, DocumentMediaType::TXT),
    ] {
        let document = into_document(DocumentBlock {
            format,
            source: Some(payload.to_vec()),
        })
        .unwrap();
        assert_eq!(document.media_type, Some(media_type));
        assert_eq!(document.format, Some(ContentFormat::Base64));
        assert_eq!(document.data, BASE64_STANDARD.encode(payload));
        let block = from_document(document).unwrap();
        assert_eq!(block.source, Some(payload.to_vec()));
        assert_eq!(into_document(block).unwrap().media_type, Some(media_type));
    }
}

#[test]
fn unsupported_image_media_type_is_refused_by_name() {
    for (media_type, name) in [
        (ImageMediaType::HEIC, "image/heic"),
        (ImageMediaType::HEIF, "image/heif"),
        (ImageMediaType::SVG, "image/svg+xml"),
    ] {
        assert_eq!(
            from_image(base64_image("aGk=", Some(media_type))),
            Err(IntegrationError::UnsupportedFormat(text(name)))
        );
    }
}

#[test]
fn unsupported_image_format_is_refused_by_name() {
    assert_eq!(
        into_image(ImageBlock {
            format: ImageFormat::Unknown(text("bmp")),
            source: Some(vec![1, 2, 3]),
        }),
        Err(IntegrationError::UnsupportedFormat(text("bmp")))
    );
}

#[test]
fn unsupported_document_media_type_is_refused_by_name() {
    for (media_type, name) in [
        (DocumentMediaType::RTF, "text/rtf"),
        (DocumentMediaType::CSS, "text/css"),
        (DocumentMediaType::XML, "text/xml"),
        (DocumentMediaType::Javascript, "application/x-javascript"),
        (DocumentMediaType::Python, "application/x-python"),
    ] {
        assert_eq!(
            from_document(Document {
                data: text("aGk="),
                format: Some(ContentFormat::Base64),
                media_type: Some(media_type),
            }),
            Err(IntegrationError::UnsupportedFormat(text(name)))
        );
    }
}

#[test]
fn unsupported_document_format_is_refused_by_name() {
    for (format, name) in [
        (DocumentFormat::Doc, "doc"),
        (DocumentFormat::Docx, "docx"),
        (DocumentFormat::Xls, "xls"),
        (DocumentFormat::Xlsx, "xlsx"),
        (DocumentFormat::Unknown(text("odt")), "odt"),
    ] {
        assert_eq!(
            into_document(DocumentBlock {
                format,
                source: Some(vec![1]),
            }),
            Err(IntegrationError::UnsupportedFormat(text(name)))
        );
    }
}

#[test]
fn missing_source_is_a_model_error() {
    assert_eq!(
        into_image(ImageBlock {
            format: ImageFormat::Gif,
            source: None,
        }),
        Err(IntegrationError::ModelError("Image source is missing"))
    );
    assert_eq!(
        into_document(DocumentBlock {
            format: DocumentFormat::Pdf,
            source: None,
        }),
        Err(IntegrationError::ModelError("Document source is missing"))
    );
}

#[test]
fn malformed_base64_is_a_conversion_error() {
    let result = from_image(base64_image("not base64!", Some(ImageMediaType::PNG)));
    assert!(matches!(result, Err(IntegrationError::ConversionError(_))));
    let result = from_document(Document {
        data: text("a"),
        format: Some(ContentFormat::Base64),
        media_type: Some(DocumentMediaType::PDF),
    });
    match result {
        Err(IntegrationError::ConversionError(words)) => assert!(!words.is_empty()),
        other => panic!("expected a conversion error, got {:?}", other),
    }
}

#[test]
fn missing_media_type_is_a_build_error() {
    assert_eq!(
        from_image(base64_image("aGk=", None)),
        Err(IntegrationError::BuildError(BuildError {
            field: "format",
            details: "format was not specified but it is required when building ImageBlock",
        }))
    );
    assert_eq!(
        from_document(Document {
            data: text("aGk="),
            format: Some(ContentFormat::Base64),
            media_type: None,
        }),
        Err(IntegrationError::BuildError(BuildError {
            field: "format",
            details: "format was not specified but it is required when building DocumentBlock",
        }))
    );
}

#[test]
fn malformed_payload_is_reported_before_the_missing_media_type() {
    assert!(matches!(
        from_image(base64_image("***", None)),
        Err(IntegrationError::ConversionError(_))
    ));
}

#[test]
fn tool_result_blocks_are_read() {
    assert_eq!(
        into_tool_result(ToolResultContentBlock::Text(text("done"))),
        Ok(ToolResultContent::Text(text("done")))
    );
    assert_eq!(
        into_tool_result(ToolResultContentBlock::Json(JsonPayload {
            document: ProviderDocument::Object(vec![(
                text("sum"),
                ProviderDocument::Number(Number::PosInt(3))
            )]),
            text: text("{\"sum\":3}"),
        })),
        Ok(ToolResultContent::Text(text("{\"sum\":3}")))
    );
    assert_eq!(
        into_tool_result(ToolResultContentBlock::Image(png(b"hi"))),
        Ok(ToolResultContent::Image(Image {
            data: text("aGk="),
            format: Some(ContentFormat::Base64),
            media_type: Some(ImageMediaType::PNG),
            detail: None,
        }))
    );
}

#[test]
fn tool_result_refuses_other_kinds() {
    assert_eq!(
        into_tool_result(ToolResultContentBlock::Document(DocumentBlock {
            format: DocumentFormat::Pdf,
            source: Some(vec![1]),
        })),
        Err(IntegrationError::UnsupportedFeature(
            "ToolResultContentBlock contains unsupported variant"
        ))
    );
    assert_eq!(
        into_tool_result(ToolResultContentBlock::Other),
        Err(IntegrationError::UnsupportedFeature(
            "ToolResultContentBlock contains unsupported variant"
        ))
    );
}

#[test]
fn tool_result_content_is_written() {
    assert_eq!(
        from_tool_result(ToolResultContent::Text(text("done"))),
        Ok(ToolResultContentBlock::Text(text("done")))
    );
    assert_eq!(
        from_tool_result(ToolResultContent::Image(base64_image(
            "aGk=",
            Some(ImageMediaType::PNG)
        ))),
        Ok(ToolResultContentBlock::Image(png(b"hi")))
    );
    assert_eq!(
        from_tool_result(ToolResultContent::Image(base64_image(
            "aGk=",
            Some(ImageMediaType::SVG)
        ))),
        Err(IntegrationError::UnsupportedFormat(text("image/svg+xml")))
    );
}

#[test]
fn user_content_is_written() {
    assert_eq!(
        from_user_content(UserContent::Text(text("hello"))),
        Ok(ContentBlock::Text(text("hello")))
    );
    assert_eq!(
        from_user_content(UserContent::Image(base64_image(
            "aGk=",
            Some(ImageMediaType::GIF)
        ))),
        Ok(ContentBlock::Image(ImageBlock {
            format: ImageFormat::Gif,
            source: Some(b"hi".to_vec()),
        }))
    );
    assert_eq!(
        from_user_content(UserContent::Document(Document {
            data: text("aGk="),
            format: Some(ContentFormat::Base64),
            media_type: Some(DocumentMediaType::MARKDOWN),
        })),
        Ok(ContentBlock::Document(DocumentBlock {
            format: DocumentFormat::Md,
            source: Some(b"hi".to_vec()),
        }))
    );
}

#[test]
fn audio_is_an_unsupported_feature() {
    assert_eq!(
        from_user_content(UserContent::Audio),
        Err(IntegrationError::UnsupportedFeature("Audio"))
    );
}

#[test]
fn user_tool_result_keeps_what_can_be_written() {
    let result = from_user_content(UserContent::ToolResult(ToolResult {
        id: text("call-1"),
        content: vec![
            ToolResultContent::Text(text("first")),
            ToolResultContent::Image(base64_image("aGk=", Some(ImageMediaType::SVG))),
            ToolResultContent::Image(base64_image("aGk=", Some(ImageMediaType::PNG))),
        ],
    }));
    assert_eq!(
        result,
        Ok(ContentBlock::ToolResult(ToolResultBlock {
            tool_use_id: text("call-1"),
            content: vec![
                ToolResultContentBlock::Text(text("first")),
                ToolResultContentBlock::Image(png(b"hi")),
            ],
        }))
    );
}

#[test]
fn user_blocks_are_read() {
    assert_eq!(
        into_user_content(ContentBlock::Text(text("hello"))),
        Ok(UserContent::Text(text("hello")))
    );
    assert_eq!(
        into_user_content(ContentBlock::ToolResult(ToolResultBlock {
            tool_use_id: text("call-2"),
            content: vec![
                ToolResultContentBlock::Other,
                ToolResultContentBlock::Text(text("kept")),
            ],
        })),
        Ok(UserContent::ToolResult(ToolResult {
            id: text("call-2"),
            content: vec![ToolResultContent::Text(text("kept"))],
        }))
    );
    assert_eq!(
        into_user_content(ContentBlock::ToolResult(ToolResultBlock {
            tool_use_id: text("call-3"),
            content: vec![ToolResultContentBlock::Other],
        })),
        Err(IntegrationError::UnsupportedFeature(
            "ToolResult returned invalid response"
        ))
    );
    assert_eq!(
        into_user_content(ContentBlock::Other),
        Err(IntegrationError::UnsupportedFeature(
            "ToolResultContentBlock contains unsupported variant"
        ))
    );
}

#[test]
fn assistant_content_maps_both_ways() {
    let call = || ToolCall {
        id: text("call-4"),
        name: text("add"),
        arguments: JsonValue::Object(vec![
            (text("x"), JsonValue::Number(JsonNumber::PosInt(1))),
            (text("y"), JsonValue::Number(JsonNumber::NegInt(-2))),
        ]),
    };
    let block = from_assistent_content(AssistantContent::ToolCall(call())).unwrap();
    assert_eq!(
        block,
        ContentBlock::ToolUse(ToolUseBlock {
            tool_use_id: text("call-4"),
            name: text("add"),
            input: ProviderDocument::Object(vec![
                (text("x"), ProviderDocument::Number(Number::PosInt(1))),
                (text("y"), ProviderDocument::Number(Number::NegInt(-2))),
            ]),
        })
    );
    assert_eq!(
        into_assistent_content(block),
        Ok(AssistantContent::ToolCall(call()))
    );
    assert_eq!(
        from_assistent_content(AssistantContent::Text(text("hi"))),
        Ok(ContentBlock::Text(text("hi")))
    );
    assert_eq!(
        into_assistent_content(ContentBlock::Text(text("hi"))),
        Ok(AssistantContent::Text(text("hi")))
    );
}

#[test]
fn assistant_content_refuses_an_image() {
    assert_eq!(
        into_assistent_content(ContentBlock::Image(png(b"hi"))),
        Err(IntegrationError::UnsupportedFeature(
            "AWS Bedrock returned unsupported ContentBlock"
        ))
    );
    assert_eq!(
        into_message(rig_bedrock::bedrock::Message {
            role: ConversationRole::Assistant,
            content: vec![ContentBlock::Image(png(b"hi"))],
        }),
        Err(IntegrationError::UnsupportedFeature(
            "Message returned invalid response"
        ))
    );
    assert_eq!(
        into_message(rig_bedrock::bedrock::Message {
            role: ConversationRole::Assistant,
            content: vec![ContentBlock::Image(png(b"hi")), ContentBlock::Text(text("ok"))],
        }),
        Ok(Message::Assistant {
            content: vec![AssistantContent::Text(text("ok"))],
        })
    );
}

#[test]
fn message_is_written_without_what_cannot_be() {
    assert_eq!(
        from_message(Message::User {
            content: vec![
                UserContent::Text(text("look")),
                UserContent::Audio,
                UserContent::Image(base64_image("aGk=", Some(ImageMediaType::HEIC))),
                UserContent::Image(base64_image("aGk=", Some(ImageMediaType::WEBP))),
            ],
        }),
        Ok(rig_bedrock::bedrock::Message {
            role: ConversationRole::User,
            content: vec![
                ContentBlock::Text(text("look")),
                ContentBlock::Image(ImageBlock {
                    format: ImageFormat::Webp,
                    source: Some(b"hi".to_vec()),
                }),
            ],
        })
    );
    assert_eq!(
        from_message(Message::Assistant {
            content: vec![AssistantContent::Text(text("fine"))],
        }),
        Ok(rig_bedrock::bedrock::Message {
            role: ConversationRole::Assistant,
            content: vec![ContentBlock::Text(text("fine"))],
        })
    );
}

#[test]
fn message_is_read_by_role() {
    assert_eq!(
        into_message(rig_bedrock::bedrock::Message {
            role: ConversationRole::User,
            content: vec![
                ContentBlock::Text(text("a")),
                ContentBlock::Other,
                ContentBlock::Image(png(b"hi")),
            ],
        }),
        Ok(Message::User {
            content: vec![
                UserContent::Text(text("a")),
                UserContent::Image(base64_image("aGk=", Some(ImageMediaType::PNG))),
            ],
        })
    );
    assert_eq!(
        into_message(rig_bedrock::bedrock::Message {
            role: ConversationRole::User,
            content: vec![],
        }),
        Err(IntegrationError::UnsupportedFeature(
            "Message returned invalid response"
        ))
    );
}

#[test]
fn unknown_role_is_an_unsupported_feature() {
    assert_eq!(
        into_message(rig_bedrock::bedrock::Message {
            role: ConversationRole::Unknown(text("system")),
            content: vec![ContentBlock::Text(text("a"))],
        }),
        Err(IntegrationError::UnsupportedFeature(
            "AWS Bedrock returned unsupported ConversationRole"
        ))
    );
}

#[test]
fn integration_errors_read_as_sentences() {
    assert_eq!(
        IntegrationError::UnsupportedFeature("Audio").message(),
        "Unsupported feature: Audio"
    );
    assert_eq!(
        IntegrationError::UnsupportedFormat(text("image/heic")).message(),
        "Unsupported format: image/heic"
    );
    assert_eq!(
        IntegrationError::BuildError(BuildError {
            field: "format",
            details: "format was not specified but it is required when building ImageBlock",
        })
        .message(),
        "Failed to build: format was missing: format was not specified but it is required when building ImageBlock"
    );
    assert_eq!(
        IntegrationError::ConversionError(text("Invalid padding")).message(),
        "Failed to convert: Invalid padding"
    );
    assert_eq!(
        IntegrationError::ModelError("Image source is missing").message(),
        "Model error: Image source is missing"
    );
}

#[test]
fn format_names_are_the_provider_names() {
    assert_eq!(ImageFormat::Gif.as_str(), "gif");
    assert_eq!(ImageFormat::Jpeg.as_str(), "jpeg");
    assert_eq!(ImageFormat::Png.as_str(), "png");
    assert_eq!(ImageFormat::Webp.as_str(), "webp");
    assert_eq!(ImageFormat::Unknown(text("tiff")).as_str(), "tiff");
    assert_eq!(DocumentFormat::Md.as_str(), "md");
    assert_eq!(DocumentFormat::Xlsx.as_str(), "xlsx");
    assert_eq!(ImageMediaType::JPEG.to_mime_type(), "image/jpeg");
    assert_eq!(DocumentMediaType::PDF.to_mime_type(), "application/pdf");
    assert_eq!(DocumentMediaType::MARKDOWN.to_mime_type(), "text/markdown");
}
