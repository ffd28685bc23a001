use rig_bedrock::client::{BedrockModel, ClientBuilder, DEFAULT_AWS_REGION};
use rig_bedrock::completion::CompletionModel;
use rig_bedrock::embedding::{BedrockEmbeddingModel, EmbeddingModel, MAX_DOCUMENTS};

#[test]
fn named_models_have_their_identifiers() {
    assert_eq!(BedrockModel::NovaLite.as_str(), "amazon.nova-lite-v1:0");
    assert_eq!(
        BedrockModel::Mistral8x7BInstruct.as_str(),
        "mistral.mixtral-8x7b-instruct-v0:1"
    );
    assert_eq!(BedrockModel::Custom("my.model").as_str(), "my.model");
}

#[test]
fn builder_starts_with_the_default_region() {
    assert_eq!(DEFAULT_AWS_REGION, "us-east-1");
    assert_eq!(ClientBuilder::new().region_name(), "us-east-1");
    assert_eq!(ClientBuilder::default().region_name(), "us-east-1");
}

#[test]
fn builder_takes_a_region() {
    assert_eq!(
        ClientBuilder::new().region("eu-west-1").region_name(),
        "eu-west-1"
    );
    assert_eq!(
        ClientBuilder::new()
            .region("eu-west-1")
            .region("ap-south-1")
            .region_name(),
        "ap-south-1"
    );
}

#[test]
fn completion_model_keeps_its_identifier() {
    let model = CompletionModel::new(BedrockModel::NovaLite.as_str());
    assert_eq!(model.model_id(), "amazon.nova-lite-v1:0");
}

#[test]
fn embedding_models_have_identifier_and_dimensions() {
    let titan = BedrockEmbeddingModel::TitanTextEmbeddingsV2(256);
    assert_eq!(titan.as_str(), "amazon.titan-embed-text-v2:0");
    assert_eq!(EmbeddingModel::new(titan).ndims(), 256);
    assert_eq!(
        EmbeddingModel::new(titan).model_id(),
        "amazon.titan-embed-text-v2:0"
    );
    let custom = BedrockEmbeddingModel::Custom("other.embed", 1024);
    assert_eq!(custom.as_str(), "other.embed");
    assert_eq!(EmbeddingModel::new(custom).ndims(), 1024);
    assert_eq!(MAX_DOCUMENTS, 1024);
}
