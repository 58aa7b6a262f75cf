//! The configuration of a client of the chat-completions API: its base URL,
//! its credential and the HTTP client that carries its requests.
use vstd::prelude::*;

use crate::chat_client::{bearer, bearer_header};

verus! {

/// The base URL that a new client uses.
pub open spec fn default_base_url() -> Seq<char> {
    "https://api.openai.com/v1"@
}

/// The chat-completions URL under `base`.
pub open spec fn chat_completions_url_of(base: Seq<char>) -> Seq<char> {
    base + "/chat/completions"@
}

/// A client of the chat-completions API.
pub struct ApiClient {
    reqwest_client: reqwest::Client,
    base_url: String,
    api_key: String,
}

impl ApiClient {
    pub closed spec fn spec_base_url(&self) -> Seq<char> {
        self.base_url@
    }

    pub closed spec fn spec_api_key(&self) -> Seq<char> {
        self.api_key@
    }

    /// A client of the public API with `api_key`, sending through `reqwest_client`.
    pub fn new(api_key: String, reqwest_client: reqwest::Client) -> (r: ApiClient)
        ensures
            r.spec_api_key() == api_key@,
            r.spec_base_url() == default_base_url(),
    {
        ApiClient { reqwest_client, base_url: "https://api.openai.com/v1".to_owned(), api_key }
    }

    /// This client with another credential.
    pub fn with_api_key(self, api_key: String) -> (r: ApiClient)
        ensures
            r.spec_api_key() == api_key@,
            r.spec_base_url() == self.spec_base_url(),
    {
        let mut this = self;
        this.api_key = api_key;
        this
    }

    /// This client with another base URL.
    pub fn with_base_url(self, base_url: String) -> (r: ApiClient)
        ensures
            r.spec_api_key() == self.spec_api_key(),
            r.spec_base_url() == base_url@,
    {
        let mut this = self;
        this.base_url = base_url;
        this
    }

    /// This client, sending through another HTTP client.
    pub fn with_client(self, reqwest_client: reqwest::Client) -> (r: ApiClient)
        ensures
            r.spec_api_key() == self.spec_api_key(),
            r.spec_base_url() == self.spec_base_url(),
    {
        let mut this = self;
        this.reqwest_client = reqwest_client;
        this
    }

    /// Where a chat-completions request is posted.
    pub fn chat_completions_url(&self) -> (r: String)
        ensures
            r@ == chat_completions_url_of(self.spec_base_url()),
    {
        let mut r = self.base_url.clone();
        r.append("/chat/completions");
        r
    }

    /// The `Authorization` header value that a request carries.
    pub fn authorization(&self) -> (r: String)
        ensures
            r@ == bearer(self.spec_api_key()),
    {
        bearer_header(self.api_key.as_str())
    }

    /// The HTTP client that performs the exchange.
    pub fn http(&self) -> &reqwest::Client {
        &self.reqwest_client
    }
}

} // verus!
