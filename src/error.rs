use vstd::prelude::*;
use crate::config::LlmProvider;

verus! {

/// Every way an operation of the library can fail.
#[derive(Debug)]
pub enum LlmError {
    /// Reading or writing the configuration failed.
    Io(String),
    /// A configuration or a provider's reply did not decode.
    Serde(String),
    /// The provider could not be reached or answered with a failure status.
    Http(String),
    /// A request that cannot be served as it stands (empty input, no model selected).
    Path(String),
    /// A tool call that names no known tool.
    Tool(String),
    /// No connection is configured for the provider.
    MissingProviderConfig(LlmProvider),
}

pub open spec fn provider_name(provider: LlmProvider) -> Seq<char> {
    match provider {
        LlmProvider::Vllm => "Vllm"@,
        LlmProvider::Ollama => "Ollama"@,
    }
}

impl LlmError {
    pub open spec fn spec_message(&self) -> Seq<char> {
        match self {
            LlmError::Io(m) => "I/O error: "@ + m@,
            LlmError::Serde(m) => "Invalid configuration: "@ + m@,
            LlmError::Http(m) => "Request failed: "@ + m@,
            LlmError::Path(m) => m@,
            LlmError::Tool(m) => m@,
            LlmError::MissingProviderConfig(p) => "Missing configuration for provider "@
                + provider_name(*p),
        }
    }

    /// The text that describes the failure to a user.
    pub fn message(&self) -> (r: String)
        ensures
            r@ == self.spec_message(),
    {
        match self {
            LlmError::Io(m) => String::from_str("I/O error: ").concat(m.as_str()),
            LlmError::Serde(m) => String::from_str("Invalid configuration: ").concat(m.as_str()),
            LlmError::Http(m) => String::from_str("Request failed: ").concat(m.as_str()),
            LlmError::Path(m) => m.clone(),
            LlmError::Tool(m) => m.clone(),
            LlmError::MissingProviderConfig(p) => {
                let name = match p {
                    LlmProvider::Vllm => "Vllm",
                    LlmProvider::Ollama => "Ollama",
                };
                String::from_str("Missing configuration for provider ").concat(name)
            },
        }
    }
}

} // verus!
