use cached_completions::chat_client::{bearer_header, ChatClient, ChatClientError};
use cached_completions::openai_client::ApiClient;

#[test]
fn bearer_header_prefixes_key() {
    assert_eq!(bearer_header("sk-1"), "Bearer sk-1");
    assert_eq!(bearer_header(""), "Bearer ");
}

#[test]
fn chat_client_endpoint_and_authorization() {
    let c = ChatClient::new("key", reqwest::Client::new());
    assert_eq!(c.endpoint(), "https://api.openai.com/v1/chat/completions");
    assert_eq!(c.authorization(), "Bearer key");
    let c = c.set_endpoint("http://localhost:8080/v1/chat/completions");
    assert_eq!(c.endpoint(), "http://localhost:8080/v1/chat/completions");
    assert_eq!(c.authorization(), "Bearer key");
}

#[test]
fn api_client_url_and_authorization() {
    let c = ApiClient::new("abc".to_string(), reqwest::Client::new());
    assert_eq!(c.chat_completions_url(), "https://api.openai.com/v1/chat/completions");
    assert_eq!(c.authorization(), "Bearer abc");
    let c = c.with_base_url("http://127.0.0.1:9/v2".to_string()).with_api_key("def".to_string());
    assert_eq!(c.chat_completions_url(), "http://127.0.0.1:9/v2/chat/completions");
    assert_eq!(c.authorization(), "Bearer def");
    let c = c.with_client(reqwest::Client::new());
    assert_eq!(c.authorization(), "Bearer def");
}

#[test]
fn only_network_errors_are_transient() {
    assert!(ChatClientError::NetworkError.is_transient());
    assert!(!ChatClientError::InvalidResponse.is_transient());
    assert!(!ChatClientError::EmptyResponse.is_transient());
    assert!(!ChatClientError::Unknown.is_transient());
}

#[test]
fn transport_error_becomes_network_error() {
    let err = reqwest::Client::new().get("not a url").build().unwrap_err();
    assert_eq!(ChatClientError::from(err), ChatClientError::NetworkError);
}
