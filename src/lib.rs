//! A read-through cache in front of a chat-completion service: a keyed
//! in-memory store, the typed request/response protocol of the service, and
//! the decisions that tie the two together for one page request.
pub mod cache_client;
pub mod chat_client;
pub mod gpt_chat;
pub mod models;
pub mod openai_client;
pub mod orchestrator;
