//! The decisions of one page request: look the page up; on a miss, say which
//! request generates it; when the service has answered, check the answer,
//! store the page, and say what the caller gets.
//!
//! The exchange with the service happens between `begin` and `complete`, with
//! the store unlocked. Two concurrent misses on one key therefore both reach
//! the service and both write; the later write is what stays.
use vstd::prelude::*;

use crate::cache_client::{Cache, MemoryCache};
use crate::chat_client::ChatClientError;
use crate::models::{
    ChatCompletionsRequest, ChatCompletionsResponse, Message, Model, NoChoicesError, Role,
};

verus! {

/// Generated pages, keyed by (category, topic).
pub type PageCache = MemoryCache<(String, String), String>;

/// The user instruction that asks for the page on `topic` in `category`.
pub open spec fn page_instruction(category: Seq<char>, topic: Seq<char>) -> Seq<char> {
    "Generate a site. The category is `"@ + category + "` and the topic is `"@ + topic + "`"@
}

/// Whether `r` is the request that generates the page on `topic` in
/// `category`: the system prompt, then the user instruction.
pub open spec fn is_page_request(
    r: ChatCompletionsRequest,
    system_prompt: Seq<char>,
    category: Seq<char>,
    topic: Seq<char>,
) -> bool {
    &&& r.spec_model() == Model::GPT4
    &&& r.spec_messages().len() == 2
    &&& r.spec_messages()[0].spec_role() == Role::System
    &&& r.spec_messages()[0].spec_content() == system_prompt
    &&& r.spec_messages()[1].spec_role() == Role::User
    &&& r.spec_messages()[1].spec_content() == page_instruction(category, topic)
}

/// The user instruction that asks for the page on `topic` in `category`.
pub fn user_instruction(category: &str, topic: &str) -> (r: String)
    ensures
        r@ == page_instruction(category@, topic@),
{
    let mut r = "Generate a site. The category is `".to_owned();
    r.append(category);
    r.append("` and the topic is `");
    r.append(topic);
    r.append("`");
    r
}

/// The request that generates the page on `topic` in `category`.
pub fn page_request(system_prompt: &str, category: &str, topic: &str) -> (r: ChatCompletionsRequest)
    ensures
        is_page_request(r, system_prompt@, category@, topic@),
{
    let instruction = user_instruction(category, topic);
    ChatCompletionsRequest::new(Model::GPT4).add_message(
        Message::new(Role::System, system_prompt),
    ).add_message(Message::new(Role::User, instruction.as_str()))
}

/// The store key of the page on `topic` in `category`.
pub fn page_key(category: &str, topic: &str) -> (r: (String, String))
    ensures
        r@ == (category@, topic@),
{
    (category.to_owned(), topic.to_owned())
}

/// What to do after looking a page up.
#[derive(Debug, Clone)]
pub enum Step {
    /// The page was stored: serve it, with no call to the service.
    Hit(String),
    /// The page was not stored: send this request to the service.
    Generate(ChatCompletionsRequest),
}

/// How a page request failed.
#[derive(Debug, Clone, Copy, PartialEq, Eq, Structural)]
pub enum PageError {
    /// The exchange with the service failed.
    Client(ChatClientError),
    /// The service answered with no choice.
    NoChoices(NoChoicesError),
    /// The store refused the page.
    CacheWrite,
}

impl PageError {
    /// Whether the caller may try again later: only a failed transport is
    /// temporary.
    pub fn is_temporary(&self) -> (r: bool)
        ensures
            r == (*self == PageError::Client(ChatClientError::NetworkError)),
    {
        match self {
            PageError::Client(e) => e.is_transient(),
            _ => false,
        }
    }
}

/// Looks up the page on `topic` in `category`: serve the stored page, or
/// generate it with `system_prompt`.
pub fn begin(cache: &PageCache, system_prompt: &str, category: &str, topic: &str) -> (r: Step)
    requires
        cache.well_formed(),
    ensures
        match r {
            Step::Hit(text) => {
                &&& cache.entries().contains_key((category@, topic@))
                &&& text == cache.entries()[(category@, topic@)]
            },
            Step::Generate(request) => {
                &&& !cache.entries().contains_key((category@, topic@))
                &&& is_page_request(request, system_prompt@, category@, topic@)
            },
        },
{
    let key = page_key(category, topic);
    match cache.read_key(&key) {
        Some(text) => Step::Hit(text.clone()),
        None => Step::Generate(page_request(system_prompt, category, topic)),
    }
}

/// Finishes the page request on `topic` in `category` with what the service
/// answered. A failed exchange, or an answer without choices, is handed on
/// and leaves the store as it was; otherwise the first choice's text is
/// stored under the page's key and returned.
pub fn complete(
    cache: &mut PageCache,
    category: &str,
    topic: &str,
    outcome: Result<ChatCompletionsResponse, ChatClientError>,
) -> (r: Result<String, PageError>)
    requires
        old(cache).well_formed(),
    ensures
        final(cache).well_formed(),
        match outcome {
            Err(e) => {
                &&& r == Err::<String, PageError>(PageError::Client(e))
                &&& final(cache).entries() == old(cache).entries()
            },
            Ok(response) => if response.spec_choices().len() == 0 {
                &&& r == Err::<String, PageError>(PageError::NoChoices(NoChoicesError {  }))
                &&& final(cache).entries() == old(cache).entries()
            } else {
                match r {
                    Ok(text) => {
                        &&& text@ == response.spec_choices()[0].spec_message().spec_content()
                        &&& final(cache).entries() == old(cache).entries().insert(
                            (category@, topic@),
                            text,
                        )
                    },
                    Err(_) => false,
                }
            },
        },
{
    let response = match outcome {
        Ok(response) => response,
        Err(e) => {
            return Err(PageError::Client(e));
        },
    };
    let text = match response.first_choice() {
        Some(choice) => choice.get_message().get_content().clone(),
        None => {
            return Err(PageError::NoChoices(NoChoicesError {  }));
        },
    };
    match cache.write_key(page_key(category, topic), text.clone()) {
        Ok(()) => Ok(text),
        Err(()) => Err(PageError::CacheWrite),
    }
}

} // verus!
