use vstd::prelude::*;

verus! {

/// Region a client is built for when the builder is given none.
pub const DEFAULT_AWS_REGION: &'static str = "us-east-1";

/// The completion models the adapter knows by name, and a way to pass any
/// other model identifier verbatim.
pub enum BedrockModel {
    NovaLite,
    Mistral8x7BInstruct,
    Custom(&'static str),
}

impl BedrockModel {
    /// The identifier that the service knows the model by.
    pub open spec fn model_id(self) -> Seq<char> {
        match self {
            BedrockModel::NovaLite => "amazon.nova-lite-v1:0"@,
            BedrockModel::Mistral8x7BInstruct => "mistral.mixtral-8x7b-instruct-v0:1"@,
            BedrockModel::Custom(id) => id@,
        }
    }

    /// The identifier that the service knows the model by.
    pub fn as_str(&self) -> (id: &'static str)
        ensures
            id@ == self.model_id(),
    {
        match self {
            BedrockModel::NovaLite => "amazon.nova-lite-v1:0",
            BedrockModel::Mistral8x7BInstruct => "mistral.mixtral-8x7b-instruct-v0:1",
            BedrockModel::Custom(id) => id,
        }
    }
}

/// Collects what a client is configured with before it is built.
#[derive(Clone)]
pub struct ClientBuilder<'a> {
    region: &'a str,
}

impl<'a> ClientBuilder<'a> {
    /// The region the built client will talk to.
    pub closed spec fn region_view(self) -> Seq<char> {
        self.region@
    }

    /// A builder for the default region.
    pub fn new() -> (builder: Self)
        ensures
            builder.region_view() == DEFAULT_AWS_REGION@,
    {
        Self { region: DEFAULT_AWS_REGION }
    }

    /// The same builder for another region.
    pub fn region(self, region: &'a str) -> (builder: Self)
        ensures
            builder.region_view() == region@,
    {
        Self { region }
    }

    /// The configured region, for whoever builds the client.
    pub fn region_name(&self) -> (region: &'a str)
        ensures
            region@ == self.region_view(),
    {
        self.region
    }
}

impl<'a> Default for ClientBuilder<'a> {
    /// A builder for the default region.
    fn default() -> (builder: Self)
        ensures
            builder.region_view() == DEFAULT_AWS_REGION@,
    {
        Self::new()
    }
}

} // verus!
