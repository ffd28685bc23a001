use vstd::prelude::*;
use vstd::string::StringExecFns;

verus! {

/// A provider block could not be put together because a field that it must
/// have was not there.
#[derive(Clone, Copy, Debug, PartialEq, Eq)]
pub struct BuildError {
    pub field: &'static str,
    pub details: &'static str,
}

/// What can go wrong while content is mapped between the framework and the
/// provider.
#[derive(Clone, Debug, PartialEq, Eq)]
pub enum IntegrationError {
    /// A kind of content, or a role, that has no counterpart on the other
    /// side. It holds the feature's name.
    UnsupportedFeature(&'static str),
    /// A kind of content that has a counterpart, in a format that has none.
    /// It holds the format's name.
    UnsupportedFormat(String),
    /// A field that a provider block must have is missing.
    BuildError(BuildError),
    /// A payload is not what its encoding allows. It holds what the decoder
    /// said of it.
    ConversionError(String),
    /// The provider sent a block without what the block is for.
    ModelError(&'static str),
}

/// What an `IntegrationError` stands for: the condition and what it names.
/// The decoder's words in a conversion error are no part of it.
pub ghost enum IntegrationErrorView {
    UnsupportedFeature(Seq<char>),
    UnsupportedFormat(Seq<char>),
    BuildError { field: Seq<char>, details: Seq<char> },
    ConversionError,
    ModelError(Seq<char>),
}

impl View for IntegrationError {
    type V = IntegrationErrorView;

    open spec fn view(&self) -> IntegrationErrorView {
        match self {
            IntegrationError::UnsupportedFeature(feature) => IntegrationErrorView::UnsupportedFeature(
                feature@,
            ),
            IntegrationError::UnsupportedFormat(format) => IntegrationErrorView::UnsupportedFormat(
                format@,
            ),
            IntegrationError::BuildError(error) => IntegrationErrorView::BuildError {
                field: error.field@,
                details: error.details@,
            },
            IntegrationError::ConversionError(_) => IntegrationErrorView::ConversionError,
            IntegrationError::ModelError(what) => IntegrationErrorView::ModelError(what@),
        }
    }
}

impl BuildError {
    /// What the error reads as.
    pub open spec fn message_text(self) -> Seq<char> {
        self.field@ + " was missing: "@ + self.details@
    }

    /// The error as a sentence.
    pub fn message(&self) -> (text: String)
        ensures
            text@ == self.message_text(),
    {
        let mut text = String::from_str(self.field);
        text.append(" was missing: ");
        text.append(self.details);
        text
    }
}

impl IntegrationError {
    /// What the error reads as: the condition, a colon, and what it names.
    pub open spec fn message_text(self) -> Seq<char> {
        match self {
            IntegrationError::UnsupportedFeature(feature) => "Unsupported feature: "@ + feature@,
            IntegrationError::UnsupportedFormat(format) => "Unsupported format: "@ + format@,
            IntegrationError::BuildError(error) => "Failed to build: "@ + error.message_text(),
            IntegrationError::ConversionError(words) => "Failed to convert: "@ + words@,
            IntegrationError::ModelError(what) => "Model error: "@ + what@,
        }
    }

    /// The error as a sentence.
    pub fn message(&self) -> (text: String)
        ensures
            text@ == self.message_text(),
    {
        match self {
            IntegrationError::UnsupportedFeature(feature) => {
                let mut text = String::from_str("Unsupported feature: ");
                text.append(feature);
                text
            },
            IntegrationError::UnsupportedFormat(format) => {
                let mut text = String::from_str("Unsupported format: ");
                text.append(format.as_str());
                text
            },
            IntegrationError::BuildError(error) => {
                let mut text = String::from_str("Failed to build: ");
                let inner = error.message();
                text.append(inner.as_str());
                text
            },
            IntegrationError::ConversionError(words) => {
                let mut text = String::from_str("Failed to convert: ");
                text.append(words.as_str());
                text
            },
            IntegrationError::ModelError(what) => {
                let mut text = String::from_str("Model error: ");
                text.append(what);
                text
            },
        }
    }
}

} // verus!
