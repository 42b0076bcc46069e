//! The outbound text-completion capability: a stateless request/response
//! wrapper around an HTTP endpoint.
//!
//! This library owns what can be decided without the network: the request
//! and response shapes, the endpoint the client will call, and whether a
//! bearer credential is attached. The transport itself — serializing over
//! the wire, sending, parsing the reply — happens outside, on plain
//! values handed across this boundary.

use vstd::prelude::*;

use vstd::string::StringExecFns;

verus! {

/// A completion request: the prompt, and optionally a model to route it
/// to. A request without a model leaves the choice to the server.
pub struct CompletionRequest {
    pub prompt: String,
    pub model: Option<String>,
}

/// A completion response: the generated content.
pub struct CompletionResponse {
    pub content: String,
}

/// A client bound to one completion endpoint, with an optional bearer
/// credential.
pub struct LlmClient {
    pub base_url: String,
    pub api_key: Option<String>,
}

impl LlmClient {
    /// A client for the service rooted at `base_url`. With `api_key`
    /// present, every request carries it as a bearer credential.
    pub fn new(base_url: &str, api_key: Option<String>) -> (c: LlmClient)
        ensures
            c.base_url@ == base_url@,
            c.api_key == api_key,
    {
        LlmClient { base_url: String::from_str(base_url), api_key }
    }

    /// The exact URL a completion request is sent to: the completions
    /// route under the client's base URL.
    pub fn completions_url(&self) -> (r: String)
        ensures
            r@ == self.base_url@ + "/v1/completions"@,
    {
        self.base_url.clone().concat("/v1/completions")
    }

    /// Whether requests from this client carry a bearer credential.
    pub fn uses_bearer_auth(&self) -> (r: bool)
        ensures
            r == (self.api_key is Some),
    {
        self.api_key.is_some()
    }
}

} // verus!
