//! A completion client configured with an endpoint and a bearer credential,
//! and the failures that an exchange with the service can end in.
use vstd::prelude::*;

verus! {

/// An HTTP client of the `reqwest` crate, carried through unopened.
#[verifier::external_type_specification]
#[verifier::external_body]
pub struct ExReqwestClient(reqwest::Client);

/// A transport failure reported by the `reqwest` crate, carried through unopened.
#[verifier::external_type_specification]
#[verifier::external_body]
pub struct ExReqwestError(reqwest::Error);

/// How an exchange with the completion service failed.
#[derive(Debug, Clone, Copy, PartialEq, Eq, Structural)]
pub enum ChatClientError {
    NetworkError,
    InvalidModel,
    InvalidRole,
    EmptyResponse,
    InvalidResponse,
    Unknown,
}

impl ChatClientError {
    /// Whether the same request may succeed when tried again later.
    pub fn is_transient(&self) -> (r: bool)
        ensures
            r == (*self == ChatClientError::NetworkError),
    {
        match self {
            ChatClientError::NetworkError => true,
            _ => false,
        }
    }
}

impl From<reqwest::Error> for ChatClientError {
    /// Every transport failure is a network error.
    fn from(_e: reqwest::Error) -> (r: ChatClientError) {
        ChatClientError::NetworkError
    }
}

impl vstd::std_specs::convert::FromSpecImpl<reqwest::Error> for ChatClientError {
    open spec fn obeys_from_spec() -> bool {
        true
    }

    open spec fn from_spec(e: reqwest::Error) -> ChatClientError {
        ChatClientError::NetworkError
    }
}

/// The endpoint that a new chat client posts to.
pub open spec fn default_chat_endpoint() -> Seq<char> {
    "https://api.openai.com/v1/chat/completions"@
}

/// The authorization header value for a bearer credential.
pub open spec fn bearer(key: Seq<char>) -> Seq<char> {
    "Bearer "@ + key
}

/// The value of the `Authorization` header for `key`.
pub fn bearer_header(key: &str) -> (r: String)
    ensures
        r@ == bearer(key@),
{
    let mut r = "Bearer ".to_owned();
    r.append(key);
    r
}

/// A client of the completion service: where to post, with which credential,
/// and through which HTTP client.
pub struct ChatClient {
    api_key: String,
    reqwest_client: reqwest::Client,
    endpoint: String,
}

impl ChatClient {
    pub closed spec fn spec_api_key(&self) -> Seq<char> {
        self.api_key@
    }

    pub closed spec fn spec_endpoint(&self) -> Seq<char> {
        self.endpoint@
    }

    /// A client that posts to the default endpoint with `api_key`.
    pub fn new(api_key: &str, reqwest_client: reqwest::Client) -> (r: ChatClient)
        ensures
            r.spec_api_key() == api_key@,
            r.spec_endpoint() == default_chat_endpoint(),
    {
        ChatClient {
            api_key: api_key.to_owned(),
            reqwest_client,
            endpoint: "https://api.openai.com/v1/chat/completions".to_owned(),
        }
    }

    /// This client, posting to `endpoint` instead.
    pub fn set_endpoint(self, endpoint: &str) -> (r: ChatClient)
        ensures
            r.spec_api_key() == self.spec_api_key(),
            r.spec_endpoint() == endpoint@,
    {
        let mut this = self;
        this.endpoint = endpoint.to_owned();
        this
    }

    /// Where a request is posted.
    pub fn endpoint(&self) -> (r: &String)
        ensures
            r@ == self.spec_endpoint(),
    {
        &self.endpoint
    }

    /// The `Authorization` header value that a request carries.
    pub fn authorization(&self) -> (r: String)
        ensures
            r@ == bearer(self.spec_api_key()),
    {
        bearer_header(self.api_key.as_str())
    }

    /// The HTTP client that performs the exchange.
    pub fn http(&self) -> &reqwest::Client {
        &self.reqwest_client
    }
}

} // verus!
