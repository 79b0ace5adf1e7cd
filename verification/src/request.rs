//! The request that asks the completion service for a review.

use vstd::prelude::*;

verus! {

/// The instruction that stands before the text under review.
pub const PREAMBLE: &'static str =
    "Review the following text for potentially discriminatory language, including but not limited to ableism, ageism, racism, antisemitism, islamophobia, and likewise: ";

/// The model that is asked.
pub const MODEL: &'static str = "gpt-3.5-turbo";

/// The role under which the prompt is sent.
pub const USER_ROLE: &'static str = "user";

/// The largest number of tokens the service may generate.
pub const MAX_TOKENS: u32 = 100;

/// The path of the completion endpoint, below the service's origin.
pub const COMPLETIONS_PATH: &'static str = "/v1/chat/completions";

/// What stands before the credential in the `Authorization` header.
pub const BEARER_PREFIX: &'static str = "Bearer ";

/// The origin of the service, where the caller names no other.
pub const DEFAULT_BASE_URL: &'static str = "https://api.openai.com";

/// One message of a chat.
#[derive(Debug, PartialEq, Eq)]
pub struct ChatMessage {
    pub role: String,
    pub content: String,
}

/// The payload of a completion request.
#[derive(Debug, PartialEq, Eq)]
pub struct CompletionRequestBody {
    pub model: String,
    pub messages: Vec<ChatMessage>,
    pub max_tokens: u32,
}

/// A completion request: where it goes, who asks, and what is asked.
#[derive(Debug, PartialEq, Eq)]
pub struct CompletionRequest {
    /// The address the request is posted to.
    pub url: String,
    /// The value of the `Authorization` header.
    pub authorization: String,
    pub body: CompletionRequestBody,
}

impl CompletionRequestBody {
    /// Whether `self` asks the fixed model, within the fixed bound, for a
    /// review of `text`: one message, from the user, that is the preamble
    /// followed by `text` as it stands.
    pub open spec fn asks_review_of(self, text: Seq<char>) -> bool {
        &&& self.model@ == MODEL@
        &&& self.max_tokens == MAX_TOKENS
        &&& self.messages@.len() == 1
        &&& self.messages@[0].role@ == USER_ROLE@
        &&& self.messages@[0].content@ == PREAMBLE@ + text
    }
}

impl CompletionRequest {
    /// Whether `self` is the request that asks the service at `base_url`, in
    /// the name of `api_key`, for a review of `text`.
    pub open spec fn asks(self, api_key: Seq<char>, text: Seq<char>, base_url: Seq<char>) -> bool {
        &&& self.url@ == base_url + COMPLETIONS_PATH@
        &&& self.authorization@ == BEARER_PREFIX@ + api_key
        &&& self.body.asks_review_of(text)
    }
}

/// The prompt: the preamble, then `text` as it stands.
pub fn build_prompt(text: &str) -> (prompt: String)
    ensures
        prompt@ == PREAMBLE@ + text@,
{
    PREAMBLE.to_owned().concat(text)
}

/// The payload that asks for a review of `text`.
pub fn build_request_body(text: &str) -> (body: CompletionRequestBody)
    ensures
        body.asks_review_of(text@),
{
    let mut messages: Vec<ChatMessage> = Vec::new();
    messages.push(ChatMessage { role: USER_ROLE.to_owned(), content: build_prompt(text) });
    CompletionRequestBody { model: MODEL.to_owned(), messages, max_tokens: MAX_TOKENS }
}

/// The address of the completion endpoint under `base_url`.
pub fn completions_url(base_url: &str) -> (url: String)
    ensures
        url@ == base_url@ + COMPLETIONS_PATH@,
{
    base_url.to_owned().concat(COMPLETIONS_PATH)
}

/// The value of the `Authorization` header for the credential `api_key`:
/// the prefix, then the credential as it stands.
pub fn authorization_header(api_key: &str) -> (value: String)
    ensures
        value@ == BEARER_PREFIX@ + api_key@,
{
    BEARER_PREFIX.to_owned().concat(api_key)
}

/// The request that asks the service at `base_url`, in the name of `api_key`,
/// for a review of `text`.
pub fn build_request(api_key: &str, text: &str, base_url: &str) -> (request: CompletionRequest)
    ensures
        request.asks(api_key@, text@, base_url@),
{
    CompletionRequest {
        url: completions_url(base_url),
        authorization: authorization_header(api_key),
        body: build_request_body(text),
    }
}

} // verus!
