use cached_completions::cache_client::{Cache, MemoryCache};
use cached_completions::chat_client::ChatClientError;
use cached_completions::gpt_chat::{Choice, FinishReason, Message, Model, Role, TokenUsage};
use cached_completions::models::{ChatCompletionsResponse, NoChoicesError};
use cached_completions::orchestrator::{
    begin, complete, page_key, page_request, user_instruction, PageCache, PageError, Step,
};

const PROMPT: &str = "You write encyclopedia pages as HTML.";

fn response_with(contents: &[&str]) -> ChatCompletionsResponse {
    let mut choices = Vec::new();
    for (i, c) in contents.iter().enumerate() {
        choices.push(Choice::new(Message::new(Role::Assistant, c), FinishReason::Stop, i as u32));
    }
    ChatCompletionsResponse::new(
        "chatcmpl-1".to_string(),
        "chat.completion".to_string(),
        1700000000,
        "gpt-4".to_string(),
        TokenUsage::new(10, 20, 30),
        choices,
    )
}

fn key(c: &str, t: &str) -> (String, String) {
    (c.to_string(), t.to_string())
}

#[test]
fn miss_generates_then_stores_page() {
    let mut cache: PageCache = MemoryCache::new();
    let request = match begin(&cache, PROMPT, "science", "atoms") {
        Step::Generate(r) => r,
        Step::Hit(_) => panic!("empty cache cannot hit"),
    };
    assert_eq!(request.get_model(), Model::GPT4);
    let messages = request.get_messages();
    assert_eq!(messages.len(), 2);
    assert_eq!(messages[0].get_role(), Role::System);
    assert_eq!(messages[0].get_content(), PROMPT);
    assert_eq!(messages[1].get_role(), Role::User);
    assert!(messages[1].get_content().contains("science"));
    assert!(messages[1].get_content().contains("atoms"));

    let r = complete(&mut cache, "science", "atoms", Ok(response_with(&["<html>...</html>"])));
    assert_eq!(r, Ok("<html>...</html>".to_string()));
    assert_eq!(cache.read_key(&key("science", "atoms")), Some(&"<html>...</html>".to_string()));
}

#[test]
fn repeat_request_hits_cache() {
    let mut cache: PageCache = MemoryCache::new();
    assert!(matches!(begin(&cache, PROMPT, "science", "atoms"), Step::Generate(_)));
    complete(&mut cache, "science", "atoms", Ok(response_with(&["<html>...</html>"]))).unwrap();
    match begin(&cache, PROMPT, "science", "atoms") {
        Step::Hit(text) => assert_eq!(text, "<html>...</html>"),
        Step::Generate(_) => panic!("a stored page must not be generated again"),
    }
    assert!(matches!(begin(&cache, PROMPT, "science", "molecules"), Step::Generate(_)));
}

#[test]
fn network_failure_leaves_cache_absent() {
    let mut cache: PageCache = MemoryCache::new();
    let r = complete(&mut cache, "science", "atoms", Err(ChatClientError::NetworkError));
    assert_eq!(r, Err(PageError::Client(ChatClientError::NetworkError)));
    assert!(r.unwrap_err().is_temporary());
    assert!(cache.read_key(&key("science", "atoms")).is_none());
}

#[test]
fn invalid_response_is_handed_on() {
    let mut cache: PageCache = MemoryCache::new();
    let r = complete(&mut cache, "a", "b", Err(ChatClientError::InvalidResponse));
    assert_eq!(r, Err(PageError::Client(ChatClientError::InvalidResponse)));
    assert!(!r.unwrap_err().is_temporary());
    assert!(cache.read_key(&key("a", "b")).is_none());
}

#[test]
fn zero_choices_is_no_choices_error() {
    let mut cache: PageCache = MemoryCache::new();
    cache.write_key(key("x", "y"), "kept".to_string()).unwrap();
    let r = complete(&mut cache, "science", "atoms", Ok(response_with(&[])));
    assert_eq!(r, Err(PageError::NoChoices(NoChoicesError {})));
    assert!(!r.unwrap_err().is_temporary());
    assert!(cache.read_key(&key("science", "atoms")).is_none());
    assert_eq!(cache.read_key(&key("x", "y")), Some(&"kept".to_string()));
}

#[test]
fn first_of_several_choices_is_stored() {
    let mut cache: PageCache = MemoryCache::new();
    let r = complete(&mut cache, "c", "t", Ok(response_with(&["one", "two"])));
    assert_eq!(r, Ok("one".to_string()));
    assert_eq!(cache.read_key(&key("c", "t")), Some(&"one".to_string()));
}

#[test]
fn user_instruction_text() {
    assert_eq!(
        user_instruction("science", "atoms"),
        "Generate a site. The category is `science` and the topic is `atoms`"
    );
    assert_eq!(user_instruction("", ""), "Generate a site. The category is `` and the topic is ``");
}

#[test]
fn page_request_and_key() {
    let r = page_request("sys", "history", "rome");
    assert_eq!(r.get_messages()[0].get_content(), "sys");
    assert_eq!(
        r.get_messages()[1].get_content(),
        "Generate a site. The category is `history` and the topic is `rome`"
    );
    assert_eq!(page_key("history", "rome"), key("history", "rome"));
}

#[test]
fn cache_write_error_is_not_temporary() {
    assert!(!PageError::CacheWrite.is_temporary());
}
