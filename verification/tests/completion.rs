use rig_bedrock::bedrock::{
    ContentBlock, ConversationRole, ConverseOutput, ImageBlock, ImageFormat, Message,
    ServiceErrorKind, ToolUseBlock,
};
use rig_bedrock::completion::{
    converse_error, resolve_role, CompletionError, CompletionModel, CompletionRequest,
    CompletionResponse, HistoryMessage, InferenceConfiguration, ModelChoice, ToolConfiguration,
    ToolDefinition, ToolSpecification,
};
use rig_bedrock::document::{Document, Number};
use rig_bedrock::json::{JsonNumber, JsonValue};

fn text(s: &str) -> String {
    String::from(s)
}

fn request(prompt: &str) -> CompletionRequest {
    CompletionRequest {
        prompt: text(prompt),
        preamble: None,
        chat_history: vec![],
        tools: vec![],
        temperature: None,
        max_tokens: None,
        additional_params: None,
    }
}

fn tool_use(id: &str, name: &str) -> ContentBlock {
    ContentBlock::ToolUse(ToolUseBlock {
        tool_use_id: text(id),
        name: text(name),
        input: Document::Object(vec![(text("x"), Document::Number(Number::PosInt(1)))]),
    })
}

fn reply(content: Vec<ContentBlock>) -> Option<ConverseOutput> {
    Some(ConverseOutput::Message(Message {
        role: ConversationRole::Assistant,
        content,
    }))
}

fn user(content: &str) -> Message {
    Message {
        role: ConversationRole::User,
        content: vec![ContentBlock::Text(text(content))],
    }
}

#[test]
fn bare_prompt_becomes_one_user_message() {
    let built = CompletionModel::new("amazon.nova-lite-v1:0").converse_request(request("hi"));
    assert_eq!(built.model_id, "amazon.nova-lite-v1:0");
    assert_eq!(built.messages, vec![user("hi")]);
    assert_eq!(built.system, None);
    assert_eq!(
        built.inference_config,
        InferenceConfiguration {
            temperature: None,
            max_tokens: None,
        }
    );
    assert_eq!(built.tool_config, None);
    assert_eq!(built.additional_model_request_fields, None);
}

#[test]
fn history_comes_before_the_prompt_with_resolved_roles() {
    let mut asked = request("and now?");
    asked.chat_history = vec![
        HistoryMessage {
            role: text("user"),
            content: text("first"),
        },
        HistoryMessage {
            role: text("assistant"),
            content: text("second"),
        },
        HistoryMessage {
            role: text("narrator"),
            content: text("third"),
        },
    ];
    let built = CompletionModel::new("m").converse_request(asked);
    assert_eq!(
        built.messages,
        vec![
            user("first"),
            Message {
                role: ConversationRole::Assistant,
                content: vec![ContentBlock::Text(text("second"))],
            },
            user("third"),
            user("and now?"),
        ]
    );
}

#[test]
fn unrecognized_role_defaults_to_user() {
    assert_eq!(resolve_role(&text("assistant")), ConversationRole::Assistant);
    assert_eq!(resolve_role(&text("user")), ConversationRole::User);
    assert_eq!(resolve_role(&text("system")), ConversationRole::User);
    assert_eq!(resolve_role(&text("Assistant")), ConversationRole::User);
    assert_eq!(resolve_role(&text("")), ConversationRole::User);
}

#[test]
fn preamble_becomes_the_one_system_block() {
    let mut asked = request("hi");
    asked.preamble = Some(text("be brief"));
    let built = CompletionModel::new("m").converse_request(asked);
    assert_eq!(built.system, Some(vec![text("be brief")]));
}

#[test]
fn sampling_settings_are_handed_on() {
    let mut asked = request("hi");
    asked.temperature = Some(0.7f64.to_bits());
    asked.max_tokens = Some(512);
    let built = CompletionModel::new("m").converse_request(asked);
    assert_eq!(
        built.inference_config,
        InferenceConfiguration {
            temperature: Some(0.7f64.to_bits()),
            max_tokens: Some(512),
        }
    );
}

#[test]
fn token_limit_keeps_its_low_32_bits() {
    let mut asked = request("hi");
    asked.max_tokens = Some(i32::MAX as u64);
    assert_eq!(
        CompletionModel::new("m")
            .converse_request(asked)
            .inference_config
            .max_tokens,
        Some(i32::MAX)
    );
    let mut asked = request("hi");
    asked.max_tokens = Some((1u64 << 32) + 5);
    assert_eq!(
        CompletionModel::new("m")
            .converse_request(asked)
            .inference_config
            .max_tokens,
        Some(5)
    );
    let mut asked = request("hi");
    asked.max_tokens = Some(1u64 << 31);
    assert_eq!(
        CompletionModel::new("m")
            .converse_request(asked)
            .inference_config
            .max_tokens,
        Some(i32::MIN)
    );
}

#[test]
fn extra_parameters_are_handed_on_as_a_document() {
    let mut asked = request("hi");
    asked.additional_params = Some(JsonValue::Object(vec![(
        text("top_k"),
        JsonValue::Number(JsonNumber::PosInt(40)),
    )]));
    let built = CompletionModel::new("m").converse_request(asked);
    assert_eq!(
        built.additional_model_request_fields,
        Some(Document::Object(vec![(
            text("top_k"),
            Document::Number(Number::PosInt(40))
        )]))
    );
}

#[test]
fn empty_tool_list_gives_no_tool_configuration() {
    let built = CompletionModel::new("m").converse_request(request("hi"));
    assert_eq!(built.tool_config, None);
}

#[test]
fn tool_with_empty_schema_is_still_specified() {
    let mut asked = request("hi");
    asked.tools = vec![ToolDefinition {
        name: text("ping"),
        description: text("Answers pong"),
        parameters: JsonValue::Object(vec![]),
    }];
    let built = CompletionModel::new("m").converse_request(asked);
    assert_eq!(
        built.tool_config,
        Some(ToolConfiguration {
            tools: vec![ToolSpecification {
                name: text("ping"),
                description: Some(text("Answers pong")),
                input_schema: Some(Document::Object(vec![])),
            }],
        })
    );
}

#[test]
fn tools_are_specified_in_order() {
    let mut asked = request("hi");
    asked.tools = vec![
        ToolDefinition {
            name: text("add"),
            description: text("Adds"),
            parameters: JsonValue::Object(vec![(
                text("type"),
                JsonValue::String(text("object")),
            )]),
        },
        ToolDefinition {
            name: text("sub"),
            description: text(""),
            parameters: JsonValue::Null,
        },
    ];
    let tools = CompletionModel::new("m")
        .converse_request(asked)
        .tool_config
        .unwrap()
        .tools;
    assert_eq!(tools.len(), 2);
    assert_eq!(tools[0].name, "add");
    assert_eq!(
        tools[0].input_schema,
        Some(Document::Object(vec![(
            text("type"),
            Document::String(text("object"))
        )]))
    );
    assert_eq!(tools[1].name, "sub");
    assert_eq!(tools[1].description, Some(text("")));
    assert_eq!(tools[1].input_schema, Some(Document::Null));
}

#[test]
fn tool_use_goes_before_text() {
    let output = reply(vec![tool_use("call-1", "add"), ContentBlock::Text(text("hello"))]);
    let response = CompletionModel::completion_response(output).unwrap();
    assert_eq!(
        response.choice,
        ModelChoice::ToolCall(
            text("add"),
            text("call-1"),
            JsonValue::Object(vec![(text("x"), JsonValue::Number(JsonNumber::PosInt(1)))])
        )
    );
    assert_eq!(
        Some(response.raw_response),
        reply(vec![tool_use("call-1", "add"), ContentBlock::Text(text("hello"))])
    );
}

#[test]
fn tool_use_goes_before_text_that_stands_first() {
    let output = reply(vec![
        ContentBlock::Text(text("hello")),
        tool_use("call-1", "add"),
        tool_use("call-2", "sub"),
    ]);
    let response = CompletionModel::completion_response(output).unwrap();
    assert!(matches!(
        response.choice,
        ModelChoice::ToolCall(ref name, ref id, _) if name == "add" && id == "call-1"
    ));
}

#[test]
fn text_alone_is_a_message() {
    let output = reply(vec![
        ContentBlock::Other,
        ContentBlock::Text(text("first")),
        ContentBlock::Text(text("second")),
    ]);
    assert_eq!(
        CompletionModel::completion_response(output),
        Ok(CompletionResponse {
            choice: ModelChoice::Message(text("first")),
            raw_response: reply(vec![
                ContentBlock::Other,
                ContentBlock::Text(text("first")),
                ContentBlock::Text(text("second")),
            ])
            .unwrap(),
        })
    );
}

#[test]
fn neither_text_nor_tool_use_is_a_response_error() {
    let expected = Err(CompletionError::ResponseError(text(
        "Response did not contain a message or tool call",
    )));
    assert_eq!(CompletionModel::completion_response(reply(vec![])), expected);
    assert_eq!(
        CompletionModel::completion_response(reply(vec![
            ContentBlock::Other,
            ContentBlock::Image(ImageBlock {
                format: ImageFormat::Png,
                source: Some(vec![1]),
            }),
        ])),
        expected
    );
}

#[test]
fn missing_output_is_a_provider_error() {
    assert_eq!(
        CompletionModel::completion_response(None),
        Err(CompletionError::ProviderError(text(
            "Model didn't return any converse output"
        )))
    );
    assert_eq!(
        CompletionModel::completion_response(Some(ConverseOutput::Unknown)),
        Err(CompletionError::ProviderError(text(
            "Failed to extract message from converse output"
        )))
    );
}

#[test]
fn service_failures_are_put_into_words() {
    let cases = [
        (ServiceErrorKind::ModelTimeout, "The request took too long to process. Processing time exceeded the model timeout length."),
        (ServiceErrorKind::AccessDenied, "The request is denied because you do not have sufficient permissions to perform the requested action."),
        (ServiceErrorKind::ResourceNotFound, "The specified resource ARN was not found."),
        (ServiceErrorKind::Throttling, "Your request was denied due to exceeding the account quotas for AWS Bedrock."),
        (ServiceErrorKind::ServiceUnavailable, "The service isn't currently available."),
        (ServiceErrorKind::InternalServer, "An internal server error occurred."),
        (ServiceErrorKind::Validation, "The input fails to satisfy the constraints specified by AWS Bedrock."),
        (ServiceErrorKind::ModelNotReady, "The model specified in the request is not ready to serve inference requests. The AWS SDK will automatically retry the operation up to 5 times."),
        (ServiceErrorKind::ModelError, "The request failed due to an error while processing the model."),
    ];
    for (kind, words) in cases {
        assert_eq!(
            converse_error(kind, None),
            CompletionError::ProviderError(text(words))
        );
        assert_eq!(
            converse_error(kind, Some(text("what the service said"))),
            CompletionError::ProviderError(text("what the service said"))
        );
    }
}

#[test]
fn unnamed_service_failure_is_an_unexpected_error() {
    let words = "An unexpected error occurred (e.g., invalid JSON returned by the service or an unknown error code).";
    for kind in [ServiceErrorKind::Other, ServiceErrorKind::ServiceQuotaExceeded] {
        assert_eq!(
            converse_error(kind, None),
            CompletionError::ProviderError(text(words))
        );
        assert_eq!(
            converse_error(kind, Some(text("ignored"))),
            CompletionError::ProviderError(text(words))
        );
    }
}
