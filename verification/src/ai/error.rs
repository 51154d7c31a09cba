//! What can go wrong when talking to a provider.

use vstd::prelude::*;
use vstd::string::*;

use crate::ai::domain::ModelRef;
use crate::numeral;
use crate::time::Duration;

verus! {

/// Why a request to a provider failed.
#[derive(Debug, Clone, PartialEq, Eq)]
#[non_exhaustive]
pub enum AiError {
    /// The provider could not be reached.
    Network(String),
    /// The provider refused the credentials.
    Auth(String),
    /// Too many requests.
    RateLimited {
        /// How long to wait, where the provider said so.
        retry_after: Option<Duration>,
    },
    /// The request was malformed.
    InvalidRequest(String),
    /// The provider does not have the model.
    ModelNotFound(ModelRef),
    /// The provider failed.
    ProviderError {
        /// The provider.
        provider_id: String,
        /// What it said.
        message: String,
    },
    /// The request was cancelled.
    Cancelled,
    /// The model cannot do what was asked.
    Unsupported(String),
    /// Anything else.
    Other(String),
}

impl AiError {
    /// The message shown for the error.
    pub open spec fn message(self) -> Seq<char> {
        match self {
            AiError::Network(m) => "network error: "@ + m@,
            AiError::Auth(m) => "auth error: "@ + m@,
            AiError::RateLimited { retry_after: None } => "rate limited"@,
            AiError::RateLimited { retry_after: Some(d) } => "rate limited (retry after "@
                + numeral::decimal((d.nanos / 1_000_000_000) as nat) + "s)"@,
            AiError::InvalidRequest(m) => "invalid request: "@ + m@,
            AiError::ModelNotFound(model) => "model not found: "@ + model.provider_id@ + "/"@
                + model.model_id@,
            AiError::ProviderError { provider_id, message } => "provider "@ + provider_id@
                + " error: "@ + message@,
            AiError::Cancelled => "cancelled"@,
            AiError::Unsupported(m) => "unsupported: "@ + m@,
            AiError::Other(m) => "other error: "@ + m@,
        }
    }

    /// The message shown for the error.
    pub fn to_string(&self) -> (res: String)
        ensures
            res@ == self.message(),
    {
        match self {
            AiError::Network(m) => "network error: ".to_owned().concat(m.as_str()),
            AiError::Auth(m) => "auth error: ".to_owned().concat(m.as_str()),
            AiError::RateLimited { retry_after } => match retry_after {
                None => "rate limited".to_owned(),
                Some(d) => "rate limited (retry after ".to_owned().concat(
                    numeral::decimal_text(d.nanos / 1_000_000_000).as_str(),
                ).concat("s)"),
            },
            AiError::InvalidRequest(m) => "invalid request: ".to_owned().concat(m.as_str()),
            AiError::ModelNotFound(model) => "model not found: ".to_owned().concat(
                model.provider_id.as_str(),
            ).concat("/").concat(model.model_id.as_str()),
            AiError::ProviderError { provider_id, message } => "provider ".to_owned().concat(
                provider_id.as_str(),
            ).concat(" error: ").concat(message.as_str()),
            AiError::Cancelled => "cancelled".to_owned(),
            AiError::Unsupported(m) => "unsupported: ".to_owned().concat(m.as_str()),
            AiError::Other(m) => "other error: ".to_owned().concat(m.as_str()),
        }
    }
}

} // verus!
