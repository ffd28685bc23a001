use vstd::prelude::*;
use vstd::string::StringExecFns;

use crate::bedrock::{
    ContentBlock, ContentBlockView, ConversationRole, ConversationRoleView, ConverseOutput,
    ConverseOutputView, ServiceErrorKind, ToolUseBlockView,
};
use crate::document::{Document, DocumentView};
use crate::json::{JsonValue, JsonView};
use crate::views::option_view;
use crate::{document_of_json, document_to_json, json_of_document, json_to_document};

verus! {

/// An earlier turn of the conversation: who spoke, by name, and what was
/// said.
#[derive(Clone, Debug, PartialEq, Eq)]
pub struct HistoryMessage {
    pub role: String,
    pub content: String,
}

/// What a `HistoryMessage` stands for.
pub ghost struct HistoryMessageView {
    pub role: Seq<char>,
    pub content: Seq<char>,
}

impl View for HistoryMessage {
    type V = HistoryMessageView;

    open spec fn view(&self) -> HistoryMessageView {
        HistoryMessageView { role: self.role@, content: self.content@ }
    }
}

/// A tool the model may ask for: its name, what it is for, and the JSON
/// schema of its parameters.
#[derive(Clone, Debug, PartialEq, Eq)]
pub struct ToolDefinition {
    pub name: String,
    pub description: String,
    pub parameters: JsonValue,
}

/// What a `ToolDefinition` stands for.
pub ghost struct ToolDefinitionView {
    pub name: Seq<char>,
    pub description: Seq<char>,
    pub parameters: JsonView,
}

impl View for ToolDefinition {
    type V = ToolDefinitionView;

    open spec fn view(&self) -> ToolDefinitionView {
        ToolDefinitionView {
            name: self.name@,
            description: self.description@,
            parameters: self.parameters@,
        }
    }
}

/// What the framework asks of a model: the prompt as the model is to see
/// it, the turns before it, an optional system preamble, the tools on
/// offer, and sampling settings. The temperature is a binary64 float, given
/// by its bit pattern.
#[derive(Clone, Debug, PartialEq, Eq)]
pub struct CompletionRequest {
    pub prompt: String,
    pub preamble: Option<String>,
    pub chat_history: Vec<HistoryMessage>,
    pub tools: Vec<ToolDefinition>,
    pub temperature: Option<u64>,
    pub max_tokens: Option<u64>,
    pub additional_params: Option<JsonValue>,
}

/// The sampling settings of a provider request. The temperature is a
/// binary64 float, given by its bit pattern.
#[derive(Clone, Copy, Debug, PartialEq, Eq)]
pub struct InferenceConfiguration {
    pub temperature: Option<u64>,
    pub max_tokens: Option<i32>,
}

/// A tool as the provider is told of it.
#[derive(Clone, Debug, PartialEq, Eq)]
pub struct ToolSpecification {
    pub name: String,
    pub description: Option<String>,
    pub input_schema: Option<Document>,
}

/// What a `ToolSpecification` stands for.
pub ghost struct ToolSpecificationView {
    pub name: Seq<char>,
    pub description: Option<Seq<char>>,
    pub input_schema: Option<DocumentView>,
}

impl View for ToolSpecification {
    type V = ToolSpecificationView;

    open spec fn view(&self) -> ToolSpecificationView {
        ToolSpecificationView {
            name: self.name@,
            description: option_view(self.description),
            input_schema: option_view(self.input_schema),
        }
    }
}

/// The tools of a provider request. A request with no tool has no such
/// block at all.
#[derive(Clone, Debug, PartialEq, Eq)]
pub struct ToolConfiguration {
    pub tools: Vec<ToolSpecification>,
}

/// A chat request as the provider takes it.
#[derive(Clone, Debug, PartialEq, Eq)]
pub struct ConverseRequest {
    pub model_id: String,
    pub messages: Vec<crate::bedrock::Message>,
    pub system: Option<Vec<String>>,
    pub inference_config: InferenceConfiguration,
    pub tool_config: Option<ToolConfiguration>,
    pub additional_model_request_fields: Option<Document>,
}

/// The role a turn is sent with: assistant where it says so, and user for
/// every other name.
pub open spec fn resolved_role(role: Seq<char>) -> ConversationRoleView {
    if role == "assistant"@ {
        ConversationRoleView::Assistant
    } else {
        ConversationRoleView::User
    }
}

/// The provider message of one earlier turn: its resolved role and its text
/// as the one block.
pub open spec fn history_message(turn: HistoryMessageView) -> crate::bedrock::MessageView {
    crate::bedrock::MessageView {
        role: resolved_role(turn.role),
        content: seq![ContentBlockView::Text(turn.content)],
    }
}

/// The messages of a request: the earlier turns in order, then the prompt as
/// a user turn.
pub open spec fn request_messages(history: Seq<HistoryMessageView>, prompt: Seq<char>) -> Seq<
    crate::bedrock::MessageView,
> {
    history.map_values(|turn: HistoryMessageView| history_message(turn)).push(
        crate::bedrock::MessageView {
            role: ConversationRoleView::User,
            content: seq![ContentBlockView::Text(prompt)],
        },
    )
}

/// The provider's specification of a tool: the same name and description,
/// and the parameter schema as a document.
pub open spec fn tool_specification(tool: ToolDefinitionView) -> ToolSpecificationView {
    ToolSpecificationView {
        name: tool.name,
        description: Some(tool.description),
        input_schema: Some(document_of_json(tool.parameters)),
    }
}

/// Resolves the role name of a turn.
pub fn resolve_role(role: &String) -> (resolved: ConversationRole)
    ensures
        resolved@ == resolved_role(role@),
{
    let assistant = String::from_str("assistant");
    if *role == assistant {
        ConversationRole::Assistant
    } else {
        ConversationRole::User
    }
}

/// A completion model of the provider, known by its identifier.
#[derive(Clone, Copy, Debug, PartialEq, Eq)]
pub struct CompletionModel {
    model_id: &'static str,
}

impl CompletionModel {
    /// The identifier of the model.
    pub closed spec fn id(self) -> Seq<char> {
        self.model_id@
    }

    /// The model with the given identifier.
    pub fn new(model_id: &'static str) -> (model: Self)
        ensures
            model.id() == model_id@,
    {
        Self { model_id }
    }

    /// The identifier of the model.
    pub fn model_id(&self) -> (id: &'static str)
        ensures
            id@ == self.id(),
    {
        self.model_id
    }

    /// Puts the provider request together. The messages are the earlier
    /// turns and then the prompt. The preamble, where there is one, is the
    /// one system block. The temperature is handed on as it is, and the token
    /// limit in the 32 bits the provider has for it: a limit above
    /// `i32::MAX` keeps its low 32 bits. The tools are listed in order, and
    /// a request without tools has no tool block. Extra parameters are
    /// handed on as a document.
    pub fn converse_request(&self, completion_request: CompletionRequest) -> (request:
        ConverseRequest)
        ensures
            request.model_id@ == self.id(),
            request.messages@.len() == completion_request.chat_history@.len() + 1,
            request.messages@.map_values(|m: crate::bedrock::Message| m@) == request_messages(
                completion_request.chat_history@.map_values(|turn: HistoryMessage| turn@),
                completion_request.prompt@,
            ),
            match completion_request.preamble {
                Some(preamble) => (request.system matches Some(blocks) && blocks@.len() == 1
                    && blocks@[0]@ == preamble@),
                None => request.system is None,
            },
            request.inference_config.temperature == completion_request.temperature,
            request.inference_config.max_tokens == match completion_request.max_tokens {
                Some(limit) => Some(limit as i32),
                None => None,
            },
            completion_request.tools@.len() == 0 ==> request.tool_config is None,
            completion_request.tools@.len() > 0 ==> (request.tool_config matches Some(config)
                && config.tools@.map_values(|t: ToolSpecification| t@)
                == completion_request.tools@.map_values(
                |t: ToolDefinition| tool_specification(t@),
            )),
            option_view(request.additional_model_request_fields) == match option_view(
                completion_request.additional_params,
            ) {
                Some(params) => Some(document_of_json(params)),
                None => None,
            },
    {
        let CompletionRequest {
            prompt,
            preamble,
            chat_history,
            tools,
            temperature,
            max_tokens,
            additional_params,
        } = completion_request;

        let ghost history = chat_history@;
        let mut messages: Vec<crate::bedrock::Message> = Vec::new();
        for turn in iter: chat_history
            invariant
                iter.seq() == history,
                messages@.len() == iter.index(),
                forall|k: int|
                    0 <= k < messages@.len() ==> (#[trigger] messages@[k])@ == history_message(
                        history[k]@,
                    ),
        {
            let HistoryMessage { role, content } = turn;
            let role = resolve_role(&role);
            let mut blocks: Vec<ContentBlock> = Vec::new();
            blocks.push(ContentBlock::Text(content));
            let message = crate::bedrock::Message { role, content: blocks };
            assert(message@.content =~= seq![ContentBlockView::Text(content@)]);
            messages.push(message);
        }
        let ghost prompt_text = prompt@;
        let mut blocks: Vec<ContentBlock> = Vec::new();
        blocks.push(ContentBlock::Text(prompt));
        let last = crate::bedrock::Message { role: ConversationRole::User, content: blocks };
        assert(last@.content =~= seq![ContentBlockView::Text(prompt_text)]);
        messages.push(last);
        assert(messages@.map_values(|m: crate::bedrock::Message| m@) =~= request_messages(
            history.map_values(|turn: HistoryMessage| turn@),
            prompt_text,
        ));

        let additional_model_request_fields = match additional_params {
            Some(params) => Some(json_to_document(params)),
            None => None,
        };

        let max_tokens = match max_tokens {
            Some(limit) => Some(#[verifier::truncate] (limit as i32)),
            None => None,
        };
        let inference_config = InferenceConfiguration { temperature, max_tokens };

        let ghost definitions = tools@;
        let mut specifications: Vec<ToolSpecification> = Vec::new();
        for tool_definition in iter: tools
            invariant
                iter.seq() == definitions,
                specifications@.len() == iter.index(),
                forall|k: int|
                    0 <= k < specifications@.len() ==> (#[trigger] specifications@[k])@
                        == tool_specification(definitions[k]@),
        {
            let ToolDefinition { name, description, parameters } = tool_definition;
            let document = json_to_document(parameters);
            specifications.push(
                ToolSpecification {
                    name,
                    description: Some(description),
                    input_schema: Some(document),
                },
            );
        }
        assert(specifications@.map_values(|t: ToolSpecification| t@) =~= definitions.map_values(
            |t: ToolDefinition| tool_specification(t@),
        ));
        let tool_config = if specifications.len() > 0 {
            Some(ToolConfiguration { tools: specifications })
        } else {
            None
        };

        let system = match preamble {
            Some(system_prompt) => {
                let mut blocks: Vec<String> = Vec::new();
                blocks.push(system_prompt);
                Some(blocks)
            },
            None => None,
        };

        ConverseRequest {
            model_id: String::from_str(self.model_id),
            messages,
            system,
            inference_config,
            tool_config,
            additional_model_request_fields,
        }
    }
}


/// Why a completion failed.
#[derive(Clone, Debug, PartialEq, Eq)]
pub enum CompletionError {
    /// The call failed at the provider, or came back without a message.
    ProviderError(String),
    /// The reply held nothing that can be read as an answer.
    ResponseError(String),
}

/// What a `CompletionError` stands for.
pub ghost enum CompletionErrorView {
    ProviderError(Seq<char>),
    ResponseError(Seq<char>),
}

impl View for CompletionError {
    type V = CompletionErrorView;

    open spec fn view(&self) -> CompletionErrorView {
        match self {
            CompletionError::ProviderError(text) => CompletionErrorView::ProviderError(text@),
            CompletionError::ResponseError(text) => CompletionErrorView::ResponseError(text@),
        }
    }
}

/// The answer of the model: text, or the request to run a tool, given by the
/// tool's name, the call's id and the arguments.
#[derive(Clone, Debug, PartialEq, Eq)]
pub enum ModelChoice {
    Message(String),
    ToolCall(String, String, JsonValue),
}

/// What a `ModelChoice` stands for.
pub ghost enum ModelChoiceView {
    Message(Seq<char>),
    ToolCall(Seq<char>, Seq<char>, JsonView),
}

impl View for ModelChoice {
    type V = ModelChoiceView;

    open spec fn view(&self) -> ModelChoiceView {
        match self {
            ModelChoice::Message(text) => ModelChoiceView::Message(text@),
            ModelChoice::ToolCall(name, id, arguments) => ModelChoiceView::ToolCall(
                name@,
                id@,
                arguments@,
            ),
        }
    }
}

/// The answer of the model together with the reply it was read from.
#[derive(Clone, Debug, PartialEq, Eq)]
pub struct CompletionResponse {
    pub choice: ModelChoice,
    pub raw_response: ConverseOutput,
}

/// What the service is taken to say where it fails in the given way and
/// sends no words of its own.
pub open spec fn default_converse_error_text(kind: ServiceErrorKind) -> Seq<char> {
    match kind {
        ServiceErrorKind::ModelTimeout => "The request took too long to process. Processing time exceeded the model timeout length."@,
        ServiceErrorKind::AccessDenied => "The request is denied because you do not have sufficient permissions to perform the requested action."@,
        ServiceErrorKind::ResourceNotFound => "The specified resource ARN was not found."@,
        ServiceErrorKind::Throttling => "Your request was denied due to exceeding the account quotas for AWS Bedrock."@,
        ServiceErrorKind::ServiceUnavailable => "The service isn't currently available."@,
        ServiceErrorKind::InternalServer => "An internal server error occurred."@,
        ServiceErrorKind::Validation => "The input fails to satisfy the constraints specified by AWS Bedrock."@,
        ServiceErrorKind::ModelNotReady => "The model specified in the request is not ready to serve inference requests. The AWS SDK will automatically retry the operation up to 5 times."@,
        ServiceErrorKind::ModelError => "The request failed due to an error while processing the model."@,
        _ => "An unexpected error occurred (e.g., invalid JSON returned by the service or an unknown error code)."@,
    }
}

/// True of the failures that a chat call names.
pub open spec fn converse_recognizes(kind: ServiceErrorKind) -> bool {
    kind != ServiceErrorKind::ServiceQuotaExceeded && kind != ServiceErrorKind::Other
}

/// What a failed chat call reads as: the words of the service where the
/// failure is one that the call names and the service sent words, else the
/// words that stand for that kind of failure.
pub open spec fn converse_error_text(kind: ServiceErrorKind, message: Option<Seq<char>>) -> Seq<
    char,
> {
    match message {
        Some(words) if converse_recognizes(kind) => words,
        _ => default_converse_error_text(kind),
    }
}

/// Puts a failure of the chat call into words and reports it as an error of
/// the provider.
pub fn converse_error(kind: ServiceErrorKind, message: Option<String>) -> (error: CompletionError)
    ensures
        error@ == CompletionErrorView::ProviderError(
            converse_error_text(kind, option_view(message)),
        ),
{
    let default = match kind {
        ServiceErrorKind::ModelTimeout => "The request took too long to process. Processing time exceeded the model timeout length.",
        ServiceErrorKind::AccessDenied => "The request is denied because you do not have sufficient permissions to perform the requested action.",
        ServiceErrorKind::ResourceNotFound => "The specified resource ARN was not found.",
        ServiceErrorKind::Throttling => "Your request was denied due to exceeding the account quotas for AWS Bedrock.",
        ServiceErrorKind::ServiceUnavailable => "The service isn't currently available.",
        ServiceErrorKind::InternalServer => "An internal server error occurred.",
        ServiceErrorKind::Validation => "The input fails to satisfy the constraints specified by AWS Bedrock.",
        ServiceErrorKind::ModelNotReady => "The model specified in the request is not ready to serve inference requests. The AWS SDK will automatically retry the operation up to 5 times.",
        ServiceErrorKind::ModelError => "The request failed due to an error while processing the model.",
        _ => {
            return CompletionError::ProviderError(
                String::from_str(
                    "An unexpected error occurred (e.g., invalid JSON returned by the service or an unknown error code).",
                ),
            );
        },
    };
    match message {
        Some(words) => CompletionError::ProviderError(words),
        None => CompletionError::ProviderError(String::from_str(default)),
    }
}

/// The first block that asks for a tool, if any does.
pub open spec fn first_tool_use(blocks: Seq<ContentBlockView>) -> Option<ToolUseBlockView>
    decreases blocks.len(),
{
    if blocks.len() == 0 {
        None
    } else {
        match blocks.first() {
            ContentBlockView::ToolUse(tool_use) => Some(tool_use),
            _ => first_tool_use(blocks.drop_first()),
        }
    }
}

/// The text of the first block that is text, if any is.
pub open spec fn first_text(blocks: Seq<ContentBlockView>) -> Option<Seq<char>>
    decreases blocks.len(),
{
    if blocks.len() == 0 {
        None
    } else {
        match blocks.first() {
            ContentBlockView::Text(text) => Some(text),
            _ => first_text(blocks.drop_first()),
        }
    }
}

/// The answer that the blocks of a reply hold. A request for a tool goes
/// before text wherever the two stand, and of several the first counts.
pub open spec fn choice_of(blocks: Seq<ContentBlockView>) -> Result<
    ModelChoiceView,
    CompletionErrorView,
> {
    match first_tool_use(blocks) {
        Some(tool_use) => Ok(
            ModelChoiceView::ToolCall(
                tool_use.name,
                tool_use.tool_use_id,
                json_of_document(tool_use.input),
            ),
        ),
        None => match first_text(blocks) {
            Some(text) => Ok(ModelChoiceView::Message(text)),
            None => Err(
                CompletionErrorView::ResponseError(
                    "Response did not contain a message or tool call"@,
                ),
            ),
        },
    }
}

/// The answer that a reply holds. A reply without output, or with output
/// that is no message, is an error of the provider.
pub open spec fn response_choice(output: Option<ConverseOutputView>) -> Result<
    ModelChoiceView,
    CompletionErrorView,
> {
    match output {
        None => Err(
            CompletionErrorView::ProviderError("Model didn't return any converse output"@),
        ),
        Some(ConverseOutputView::Unknown) => Err(
            CompletionErrorView::ProviderError(
                "Failed to extract message from converse output"@,
            ),
        ),
        Some(ConverseOutputView::Message(message)) => choice_of(message.content),
    }
}

/// Where any block of a reply asks for a tool, the answer is a tool call,
/// whatever text stands before or after it.
pub proof fn lemma_tool_use_wins(blocks: Seq<ContentBlockView>, i: int)
    requires
        0 <= i < blocks.len(),
        blocks[i] is ToolUse,
    ensures
        choice_of(blocks) matches Ok(ModelChoiceView::ToolCall(_, _, _)),
    decreases blocks.len(),
{
    if !(blocks.first() is ToolUse) {
        lemma_tool_use_wins(blocks.drop_first(), i - 1);
    }
}

/// Where no block of a reply asks for a tool and one is text, the answer is
/// the first text; where none is text either, there is no answer.
pub proof fn lemma_text_without_tool_use(blocks: Seq<ContentBlockView>)
    requires
        forall|k: int| 0 <= k < blocks.len() ==> !(#[trigger] blocks[k] is ToolUse),
    ensures
        first_tool_use(blocks) is None,
        (exists|k: int| 0 <= k < blocks.len() && #[trigger] blocks[k] is Text) ==> choice_of(
            blocks,
        ) matches Ok(ModelChoiceView::Message(_)),
        (forall|k: int| 0 <= k < blocks.len() ==> !(#[trigger] blocks[k] is Text)) ==> choice_of(
            blocks,
        ) is Err,
    decreases blocks.len(),
{
    if blocks.len() > 0 {
        let rest = blocks.drop_first();
        assert(forall|k: int| 0 <= k < rest.len() ==> rest[k] == blocks[k + 1]);
        lemma_text_without_tool_use(rest);
        if !(blocks.first() is Text) {
            if exists|k: int| 0 <= k < blocks.len() && #[trigger] blocks[k] is Text {
                let k = choose|k: int| 0 <= k < blocks.len() && #[trigger] blocks[k] is Text;
                assert(rest[k - 1] is Text);
            }
        }
    }
}

impl CompletionModel {
    /// Reads the answer out of a reply and keeps the reply beside it.
    pub fn completion_response(output: Option<ConverseOutput>) -> (result: Result<
        CompletionResponse,
        CompletionError,
    >)
        ensures
            match result {
                Ok(response) => response_choice(option_view(output)) == Ok::<
                    ModelChoiceView,
                    CompletionErrorView,
                >(response.choice@) && Some(response.raw_response@) == option_view(output),
                Err(error) => response_choice(option_view(output)) == Err::<
                    ModelChoiceView,
                    CompletionErrorView,
                >(error@),
            },
    {
        let response = match output {
            Some(response) => response,
            None => {
                return Err(
                    CompletionError::ProviderError(
                        String::from_str("Model didn't return any converse output"),
                    ),
                );
            },
        };
        let choice = match &response {
            ConverseOutput::Message(message) => {
                let content_blocks = &message.content;
                let ghost blocks = content_blocks@.map_values(|c: ContentBlock| c@);
                let mut found: Option<ModelChoice> = None;
                let mut i: usize = 0;
                assert(blocks.skip(0) =~= blocks);
                while i < content_blocks.len() && found.is_none()
                    invariant
                        i <= content_blocks.len(),
                        blocks == content_blocks@.map_values(|c: ContentBlock| c@),
                        match found {
                            None => first_tool_use(blocks) == first_tool_use(blocks.skip(i as int)),
                            Some(choice) => choice_of(blocks) == Ok::<
                                ModelChoiceView,
                                CompletionErrorView,
                            >(choice@),
                        },
                    decreases content_blocks.len() - i + (if found is None { 1int } else { 0int }),
                {
                    proof {
                        assert(blocks.skip(i as int).drop_first() =~= blocks.skip(i as int + 1));
                        assert(blocks.skip(i as int).first() == content_blocks@[i as int]@);
                    }
                    match &content_blocks[i] {
                        ContentBlock::ToolUse(tool_use_block) => {
                            found = Some(
                                ModelChoice::ToolCall(
                                    tool_use_block.name.clone(),
                                    tool_use_block.tool_use_id.clone(),
                                    document_to_json(tool_use_block.input.clone()),
                                ),
                            );
                        },
                        _ => {
                            i = i + 1;
                        },
                    }
                }
                if found.is_none() {
                    assert(blocks.skip(i as int) =~= Seq::empty());
                    let mut j: usize = 0;
                    assert(blocks.skip(0) =~= blocks);
                    while j < content_blocks.len() && found.is_none()
                        invariant
                            j <= content_blocks.len(),
                            blocks == content_blocks@.map_values(|c: ContentBlock| c@),
                            first_tool_use(blocks) is None,
                            match found {
                                None => first_text(blocks) == first_text(blocks.skip(j as int)),
                                Some(choice) => choice_of(blocks) == Ok::<
                                    ModelChoiceView,
                                    CompletionErrorView,
                                >(choice@),
                            },
                        decreases content_blocks.len() - j + (if found is None {
                            1int
                        } else {
                            0int
                        }),
                    {
                        proof {
                            assert(blocks.skip(j as int).drop_first() =~= blocks.skip(j as int + 1));
                            assert(blocks.skip(j as int).first() == content_blocks@[j as int]@);
                        }
                        match &content_blocks[j] {
                            ContentBlock::Text(text) => {
                                found = Some(ModelChoice::Message(text.clone()));
                            },
                            _ => {
                                j = j + 1;
                            },
                        }
                    }
                    if found.is_none() {
                        assert(blocks.skip(j as int) =~= Seq::empty());
                    }
                }
                found
            },
            ConverseOutput::Unknown => {
                return Err(
                    CompletionError::ProviderError(
                        String::from_str("Failed to extract message from converse output"),
                    ),
                );
            },
        };
        match choice {
            Some(choice) => Ok(CompletionResponse { choice, raw_response: response }),
            None => Err(
                CompletionError::ResponseError(
                    String::from_str("Response did not contain a message or tool call"),
                ),
            ),
        }
    }
}

} // verus!
