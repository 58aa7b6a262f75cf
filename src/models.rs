//! The request and response records of the chat-completions endpoint, and
//! the failure of a response that holds no choice.
use vstd::prelude::*;

pub use crate::gpt_chat::{
    finish_reason_wire, model_wire, parse_finish_reason, parse_model, parse_role, role_wire, Choice,
    FinishReason, Message, Model, Role, TokenUsage, ValidationError,
};

verus! {

/// A request to the chat-completions endpoint: a model and the conversation,
/// in the order the model is to read it.
#[derive(Debug, Clone)]
pub struct ChatCompletionsRequest {
    model: Model,
    messages: Vec<Message>,
}

impl ChatCompletionsRequest {
    pub closed spec fn spec_model(&self) -> Model {
        self.model
    }

    pub closed spec fn spec_messages(&self) -> Seq<Message> {
        self.messages@
    }

    /// A request for `model` with no messages yet.
    pub fn new(model: Model) -> (r: ChatCompletionsRequest)
        ensures
            r.spec_model() == model,
            r.spec_messages() == Seq::<Message>::empty(),
    {
        ChatCompletionsRequest { model, messages: Vec::new() }
    }

    /// This request with `message` appended to its conversation.
    pub fn add_message(self, message: Message) -> (r: ChatCompletionsRequest)
        ensures
            r.spec_model() == self.spec_model(),
            r.spec_messages() == self.spec_messages().push(message),
    {
        let mut this = self;
        this.messages.push(message);
        this
    }

    pub fn get_model(&self) -> (r: Model)
        ensures
            r == self.spec_model(),
    {
        self.model
    }

    pub fn get_messages(&self) -> (r: &Vec<Message>)
        ensures
            r@ == self.spec_messages(),
    {
        &self.messages
    }
}

/// A response of the chat-completions endpoint.
#[derive(Debug, Clone)]
pub struct ChatCompletionsResponse {
    id: String,
    object: String,
    created: u64,
    model: String,
    usage: TokenUsage,
    choices: Vec<Choice>,
}

impl ChatCompletionsResponse {
    pub closed spec fn spec_id(&self) -> Seq<char> {
        self.id@
    }

    pub closed spec fn spec_object(&self) -> Seq<char> {
        self.object@
    }

    pub closed spec fn spec_created(&self) -> u64 {
        self.created
    }

    pub closed spec fn spec_model(&self) -> Seq<char> {
        self.model@
    }

    pub closed spec fn spec_usage(&self) -> TokenUsage {
        self.usage
    }

    pub closed spec fn spec_choices(&self) -> Seq<Choice> {
        self.choices@
    }

    pub fn new(
        id: String,
        object: String,
        created: u64,
        model: String,
        usage: TokenUsage,
        choices: Vec<Choice>,
    ) -> (r: ChatCompletionsResponse)
        ensures
            r.spec_id() == id@,
            r.spec_object() == object@,
            r.spec_created() == created,
            r.spec_model() == model@,
            r.spec_usage() == usage,
            r.spec_choices() == choices@,
    {
        ChatCompletionsResponse { id, object, created, model, usage, choices }
    }

    /// The highest-ranked choice, or `None` when there is none.
    pub fn first_choice(&self) -> (r: Option<&Choice>)
        ensures
            self.spec_choices().len() == 0 ==> r.is_none(),
            self.spec_choices().len() > 0 ==> r == Some(&self.spec_choices()[0]),
    {
        if self.choices.len() > 0 {
            Some(&self.choices[0])
        } else {
            None
        }
    }

    pub fn get_choices(&self) -> (r: &Vec<Choice>)
        ensures
            r@ == self.spec_choices(),
    {
        &self.choices
    }

    pub fn get_model(&self) -> (r: &String)
        ensures
            r@ == self.spec_model(),
    {
        &self.model
    }

    pub fn get_id(&self) -> (r: &String)
        ensures
            r@ == self.spec_id(),
    {
        &self.id
    }

    pub fn get_object(&self) -> (r: &String)
        ensures
            r@ == self.spec_object(),
    {
        &self.object
    }

    pub fn get_created(&self) -> (r: u64)
        ensures
            r == self.spec_created(),
    {
        self.created
    }

    pub fn get_usage(&self) -> (r: TokenUsage)
        ensures
            r == self.spec_usage(),
    {
        self.usage
    }
}

/// A well-formed response that holds no choice.
#[derive(Debug, Clone, Copy, PartialEq, Eq, Structural)]
pub struct NoChoicesError {}

/// The text that describes a response without choices.
pub open spec fn no_choices_text() -> Seq<char> {
    "No choices returned for prompt"@
}

impl NoChoicesError {
    /// What went wrong, in words.
    pub fn message(&self) -> (r: String)
        ensures
            r@ == no_choices_text(),
    {
        "No choices returned for prompt".to_owned()
    }
}

} // verus!
