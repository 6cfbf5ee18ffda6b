//! The failures that building a registry and looking a model up can end in.
use vstd::prelude::*;
use vstd::string::StringExecFns;

verus! {

/// Why a registry could not be built, or a model not be served.
#[derive(Debug, Clone, PartialEq, Eq)]
pub enum ProviderError {
    /// The configuration is malformed or incomplete, a credential file could not be
    /// read or understood, or a backend family is unknown. Holds the reason.
    ConfigError(String),
    /// No registered backend serves the model. Holds the model that was asked for.
    ModelNotSupported(String),
}

/// The mathematical value of a [`ProviderError`].
pub ghost enum ErrorView {
    ConfigError(Seq<char>),
    ModelNotSupported(Seq<char>),
}

impl View for ProviderError {
    type V = ErrorView;

    open spec fn view(&self) -> ErrorView {
        match self {
            ProviderError::ConfigError(reason) => ErrorView::ConfigError(reason@),
            ProviderError::ModelNotSupported(model) => ErrorView::ModelNotSupported(model@),
        }
    }
}

/// The line of text that reports an error.
pub open spec fn error_text(error: ErrorView) -> Seq<char> {
    match error {
        ErrorView::ConfigError(reason) => "Configuration error: "@ + reason,
        ErrorView::ModelNotSupported(model) => "Model not supported: "@ + model,
    }
}

impl ProviderError {
    /// The line of text that reports this error.
    pub fn message(&self) -> (r: String)
        ensures
            r@ == error_text(self@),
    {
        match self {
            ProviderError::ConfigError(reason) => {
                String::from_str("Configuration error: ").concat(reason.as_str())
            },
            ProviderError::ModelNotSupported(model) => {
                String::from_str("Model not supported: ").concat(model.as_str())
            },
        }
    }
}

} // verus!
