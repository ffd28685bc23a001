use vstd::prelude::*;
use vstd::string::StringExecFns;

use crate::bedrock::ServiceErrorKind;
use crate::encoding::{text_of_utf8, utf8_error_text};
use crate::views::option_view;

verus! {

/// What the embedding model is asked for one text: the text, how many
/// dimensions the vector is to have, and whether it is to be normalized.
#[derive(Clone, Debug, PartialEq, Eq)]
pub struct EmbeddingRequest {
    pub input_text: String,
    pub dimensions: usize,
    pub normalize: bool,
}

/// What the embedding model answers for one text: the vector, each
/// coordinate a binary64 float given by its bit pattern, and the number of
/// tokens it read.
#[derive(Clone, Debug, PartialEq, Eq)]
pub struct EmbeddingResponse {
    pub embedding: Vec<u64>,
    pub input_text_token_count: usize,
}

/// The embedding models the adapter knows by name, each with the number of
/// dimensions it is asked for, and a way to pass any other model identifier.
#[derive(Clone, Copy, Debug, PartialEq, Eq)]
pub enum BedrockEmbeddingModel {
    TitanTextEmbeddingsV2(usize),
    Custom(&'static str, usize),
}

impl BedrockEmbeddingModel {
    /// The identifier that the service knows the model by.
    pub open spec fn model_id(self) -> Seq<char> {
        match self {
            BedrockEmbeddingModel::TitanTextEmbeddingsV2(_) => "amazon.titan-embed-text-v2:0"@,
            BedrockEmbeddingModel::Custom(id, _) => id@,
        }
    }

    /// The number of dimensions the model is asked for.
    pub open spec fn dimensions(self) -> usize {
        match self {
            BedrockEmbeddingModel::TitanTextEmbeddingsV2(ndims) => ndims,
            BedrockEmbeddingModel::Custom(_, ndims) => ndims,
        }
    }

    /// The identifier that the service knows the model by.
    pub fn as_str(&self) -> (id: &'static str)
        ensures
            id@ == self.model_id(),
    {
        match self {
            BedrockEmbeddingModel::TitanTextEmbeddingsV2(_) => "amazon.titan-embed-text-v2:0",
            BedrockEmbeddingModel::Custom(id, _) => id,
        }
    }
}

/// Why an embedding failed.
#[derive(Clone, Debug, PartialEq, Eq)]
pub enum EmbeddingError {
    /// The request could not be written as JSON, or the reply could not be
    /// read as JSON.
    JsonError(String),
    /// The reply, or the batch as a whole, was not what it should be.
    ResponseError(String),
    /// The call failed at the provider.
    ProviderError(String),
}

/// What a `EmbeddingError` stands for.
pub ghost enum EmbeddingErrorView {
    JsonError(Seq<char>),
    ResponseError(Seq<char>),
    ProviderError(Seq<char>),
}

impl EmbeddingErrorView {
    /// What the error reads as: its kind, a colon, and its words.
    pub open spec fn message_text(self) -> Seq<char> {
        match self {
            EmbeddingErrorView::JsonError(words) => "JsonError: "@ + words,
            EmbeddingErrorView::ResponseError(words) => "ResponseError: "@ + words,
            EmbeddingErrorView::ProviderError(words) => "ProviderError: "@ + words,
        }
    }
}

impl View for EmbeddingError {
    type V = EmbeddingErrorView;

    open spec fn view(&self) -> EmbeddingErrorView {
        match self {
            EmbeddingError::JsonError(words) => EmbeddingErrorView::JsonError(words@),
            EmbeddingError::ResponseError(words) => EmbeddingErrorView::ResponseError(words@),
            EmbeddingError::ProviderError(words) => EmbeddingErrorView::ProviderError(words@),
        }
    }
}

impl EmbeddingError {
    /// The error as a sentence.
    pub fn message(&self) -> (text: String)
        ensures
            text@ == self@.message_text(),
    {
        match self {
            EmbeddingError::JsonError(words) => {
                let mut text = String::from_str("JsonError: ");
                text.append(words.as_str());
                text
            },
            EmbeddingError::ResponseError(words) => {
                let mut text = String::from_str("ResponseError: ");
                text.append(words.as_str());
                text
            },
            EmbeddingError::ProviderError(words) => {
                let mut text = String::from_str("ProviderError: ");
                text.append(words.as_str());
                text
            },
        }
    }
}

/// A text together with its vector, each coordinate a binary64 float given
/// by its bit pattern.
#[derive(Clone, Debug, PartialEq, Eq)]
pub struct Embedding {
    pub document: String,
    pub vec: Vec<u64>,
}

/// What a `Embedding` stands for.
pub ghost struct EmbeddingView {
    pub document: Seq<char>,
    pub vec: Seq<u64>,
}

impl View for Embedding {
    type V = EmbeddingView;

    open spec fn view(&self) -> EmbeddingView {
        EmbeddingView { document: self.document@, vec: self.vec@ }
    }
}

/// What the service is taken to say where an embedding call fails in the
/// given way and sends no words of its own.
pub open spec fn default_invoke_model_error_text(kind: ServiceErrorKind) -> Seq<char> {
    match kind {
        ServiceErrorKind::ModelTimeout => "The request took too long to process. Processing time exceeded the model timeout length."@,
        ServiceErrorKind::AccessDenied => "The request is denied because you do not have sufficient permissions to perform the requested action."@,
        ServiceErrorKind::ResourceNotFound => "The specified resource ARN was not found."@,
        ServiceErrorKind::Throttling => "Your request was denied due to exceeding the account quotas for Amazon Bedrock."@,
        ServiceErrorKind::ServiceUnavailable => "The service isn't currently available."@,
        ServiceErrorKind::InternalServer => "An internal server error occurred."@,
        ServiceErrorKind::Validation => "The input fails to satisfy the constraints specified by Amazon Bedrock."@,
        ServiceErrorKind::ModelNotReady => "The model specified in the request is not ready to serve inference requests. The AWS SDK will automatically retry the operation up to 5 times."@,
        ServiceErrorKind::ModelError => "The request failed due to an error while processing the model."@,
        ServiceErrorKind::ServiceQuotaExceeded => "Your request exceeds the service quota for your account."@,
        ServiceErrorKind::Other => "An unexpected error occurred (e.g., invalid JSON returned by the service or an unknown error code)."@,
    }
}

/// What a failed embedding call reads as: the words of the service where the
/// failure has a name and the service sent words, else the words that stand
/// for that kind of failure.
pub open spec fn invoke_model_error_text(kind: ServiceErrorKind, message: Option<Seq<char>>) -> Seq<
    char,
> {
    match message {
        Some(words) if kind != ServiceErrorKind::Other => words,
        _ => default_invoke_model_error_text(kind),
    }
}

/// Puts a failure of the embedding call into words and reports it as an
/// error of the provider.
pub fn invoke_model_error(kind: ServiceErrorKind, message: Option<String>) -> (error:
    EmbeddingError)
    ensures
        error@ == EmbeddingErrorView::ProviderError(
            invoke_model_error_text(kind, option_view(message)),
        ),
{
    let default = match kind {
        ServiceErrorKind::ModelTimeout => "The request took too long to process. Processing time exceeded the model timeout length.",
        ServiceErrorKind::AccessDenied => "The request is denied because you do not have sufficient permissions to perform the requested action.",
        ServiceErrorKind::ResourceNotFound => "The specified resource ARN was not found.",
        ServiceErrorKind::Throttling => "Your request was denied due to exceeding the account quotas for Amazon Bedrock.",
        ServiceErrorKind::ServiceUnavailable => "The service isn't currently available.",
        ServiceErrorKind::InternalServer => "An internal server error occurred.",
        ServiceErrorKind::Validation => "The input fails to satisfy the constraints specified by Amazon Bedrock.",
        ServiceErrorKind::ModelNotReady => "The model specified in the request is not ready to serve inference requests. The AWS SDK will automatically retry the operation up to 5 times.",
        ServiceErrorKind::ModelError => "The request failed due to an error while processing the model.",
        ServiceErrorKind::ServiceQuotaExceeded => "Your request exceeds the service quota for your account.",
        ServiceErrorKind::Other => {
            return EmbeddingError::ProviderError(
                String::from_str(
                    "An unexpected error occurred (e.g., invalid JSON returned by the service or an unknown error code).",
                ),
            );
        },
    };
    match message {
        Some(words) => EmbeddingError::ProviderError(words),
        None => EmbeddingError::ProviderError(String::from_str(default)),
    }
}

/// Reads the body of a reply as text. Bytes that are no UTF-8 are an error
/// of the response.
pub fn response_text(body: Vec<u8>) -> (result: Result<String, EmbeddingError>)
    ensures
        match result {
            Ok(text) => vstd::utf8::valid_utf8(body@) && text@ == vstd::utf8::decode_utf8(body@),
            Err(error) => !vstd::utf8::valid_utf8(body@) && error is ResponseError,
        },
{
    match text_of_utf8(body) {
        Ok(text) => Ok(text),
        Err(error) => Err(EmbeddingError::ResponseError(utf8_error_text(&error))),
    }
}

/// An embedding model of the provider.
#[derive(Clone, Copy, Debug, PartialEq, Eq)]
pub struct EmbeddingModel {
    model: BedrockEmbeddingModel,
}

/// The most texts that one batch is meant to hold.
pub const MAX_DOCUMENTS: usize = 1024;

impl EmbeddingModel {
    /// The model that stands behind this one.
    pub closed spec fn model(self) -> BedrockEmbeddingModel {
        self.model
    }

    /// The embedding model that stands on the given one.
    pub fn new(model: BedrockEmbeddingModel) -> (embedding_model: Self)
        ensures
            embedding_model.model() == model,
    {
        Self { model }
    }

    /// The identifier that the service knows the model by.
    pub fn model_id(&self) -> (id: &'static str)
        ensures
            id@ == self.model().model_id(),
    {
        self.model.as_str()
    }

    /// The number of dimensions of the vectors the model is asked for.
    pub fn ndims(&self) -> (ndims: usize)
        ensures
            ndims == self.model().dimensions(),
    {
        match self.model {
            BedrockEmbeddingModel::TitanTextEmbeddingsV2(ndims) => ndims,
            BedrockEmbeddingModel::Custom(_, ndims) => ndims,
        }
    }

    /// Starts a batch: the texts wait to be embedded one by one, in order.
    pub fn embed_texts(&self, documents: Vec<String>) -> (batch: EmbeddingBatch)
        ensures
            batch.documents() == documents@.map_values(|d: String| d@),
            batch.dimensions() == self.model().dimensions(),
            batch.embedded() == Seq::<EmbeddingView>::empty(),
            batch.failure() is None,
    {
        EmbeddingBatch {
            documents,
            dimensions: self.ndims(),
            embeddings: Vec::new(),
            failure: None,
        }
    }
}

/// A batch of texts on its way through the embedding model. Each text is
/// sent by itself, in the order of the batch; the first call that fails ends
/// the batch, and a batch that has failed gives no vector at all.
pub struct EmbeddingBatch {
    documents: Vec<String>,
    dimensions: usize,
    embeddings: Vec<Embedding>,
    failure: Option<EmbeddingError>,
}

impl EmbeddingBatch {
    #[verifier::type_invariant]
    spec fn well_formed(self) -> bool {
        &&& self.embeddings@.len() <= self.documents@.len()
        &&& forall|i: int|
            0 <= i < self.embeddings@.len() ==> (#[trigger] self.embeddings@[i]).document@
                == self.documents@[i]@
    }

    /// The texts of the batch.
    pub closed spec fn documents(self) -> Seq<Seq<char>> {
        self.documents@.map_values(|d: String| d@)
    }

    /// The number of dimensions each text is embedded in.
    pub closed spec fn dimensions(self) -> usize {
        self.dimensions
    }

    /// The texts embedded so far, each with its vector.
    pub closed spec fn embedded(self) -> Seq<EmbeddingView> {
        self.embeddings@.map_values(|e: Embedding| e@)
    }

    /// The error that ended the batch, if one did.
    pub closed spec fn failure(self) -> Option<EmbeddingErrorView> {
        option_view(self.failure)
    }

    /// True while a text waits to be sent: the batch has not failed and has
    /// texts left.
    pub open spec fn pending(self) -> bool {
        self.failure() is None && self.embedded().len() < self.documents().len()
    }

    /// The request for the text that is next in line, or `None` where the
    /// batch has failed or is through.
    pub fn next_request(&self) -> (request: Option<EmbeddingRequest>)
        ensures
            self.pending() ==> (request matches Some(next) && next.input_text@
                == self.documents()[self.embedded().len() as int] && next.dimensions
                == self.dimensions() && next.normalize),
            !self.pending() ==> request is None,
    {
        proof {
            use_type_invariant(self);
        }
        if self.failure.is_none() && self.embeddings.len() < self.documents.len() {
            Some(
                EmbeddingRequest {
                    input_text: self.documents[self.embeddings.len()].clone(),
                    dimensions: self.dimensions,
                    normalize: true,
                },
            )
        } else {
            None
        }
    }

    /// Takes in what the call for the text next in line gave. A response
    /// puts the text and its vector behind those embedded so far; an error
    /// ends the batch. Where no text waits, nothing changes.
    pub fn record(self, outcome: Result<EmbeddingResponse, EmbeddingError>) -> (after: Self)
        ensures
            after.documents() == self.documents(),
            after.dimensions() == self.dimensions(),
            !self.pending() ==> after.embedded() == self.embedded(),
            !self.pending() ==> after.failure() == self.failure(),
            self.pending() ==> match outcome {
                Ok(response) => after.failure() is None && after.embedded()
                    == self.embedded().push(
                    EmbeddingView {
                        document: self.documents()[self.embedded().len() as int],
                        vec: response.embedding@,
                    },
                ),
                Err(error) => after.failure() == Some(error@) && after.embedded()
                    == self.embedded(),
            },
    {
        proof {
            use_type_invariant(&self);
        }
        let pending = self.failure.is_none() && self.embeddings.len() < self.documents.len();
        let EmbeddingBatch { documents, dimensions, embeddings, failure } = self;
        if pending {
            match outcome {
                Ok(response) => {
                    let document = documents[embeddings.len()].clone();
                    let mut embeddings = embeddings;
                    embeddings.push(Embedding { document, vec: response.embedding });
                    let after = EmbeddingBatch { documents, dimensions, embeddings, failure };
                    assert(after.embedded() =~= self.embedded().push(
                        EmbeddingView {
                            document: self.documents()[self.embedded().len() as int],
                            vec: response.embedding@,
                        },
                    ));
                    after
                },
                Err(error) => EmbeddingBatch {
                    documents,
                    dimensions,
                    embeddings,
                    failure: Some(error),
                },
            }
        } else {
            EmbeddingBatch { documents, dimensions, embeddings, failure }
        }
    }

    /// Ends the batch. A batch that has failed gives one error, which holds
    /// the first failure as a sentence, and none of the vectors. A batch
    /// that has not failed gives the texts embedded so far, in the order of
    /// the batch, each with its own text and vector.
    pub fn finish(self) -> (result: Result<Vec<Embedding>, EmbeddingError>)
        ensures
            match self.failure() {
                Some(error) => result matches Err(aggregate) && aggregate@
                    == EmbeddingErrorView::ResponseError(error.message_text()),
                None => result matches Ok(embeddings) && embeddings@.map_values(|e: Embedding| e@)
                    == self.embedded() && embeddings@.len() <= self.documents().len()
                    && forall|i: int|
                    0 <= i < embeddings@.len() ==> (#[trigger] embeddings@[i]).document@
                        == self.documents()[i],
            },
    {
        proof {
            use_type_invariant(&self);
        }
        match self.failure {
            Some(error) => Err(EmbeddingError::ResponseError(error.message())),
            None => Ok(self.embeddings),
        }
    }
}

} // verus!
