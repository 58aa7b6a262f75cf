//! The chat-completion protocol: roles, models, finish reasons, messages,
//! choices, token accounting, and the request and response records.
use vstd::prelude::*;
use vstd::std_specs::convert::TryFromSpec;

verus! {

/// Who wrote a message in a conversation.
#[derive(Debug, Clone, Copy, PartialEq, Eq, Structural)]
pub enum Role {
    Assistant,
    System,
    User,
}

/// What a failed parse of an enumerated wire field was about, with the raw text.
#[derive(Debug, Clone, PartialEq, Eq)]
pub enum ValidationError {
    Role(String),
    FinishReason(String),
    Model(String),
}

/// The wire spelling of a role.
pub open spec fn role_wire(r: Role) -> Seq<char> {
    match r {
        Role::Assistant => "assistant"@,
        Role::System => "system"@,
        Role::User => "user"@,
    }
}

/// The role whose wire spelling is `s`, if there is one.
pub open spec fn parse_role(s: Seq<char>) -> Option<Role> {
    if s == "assistant"@ {
        Some(Role::Assistant)
    } else if s == "system"@ {
        Some(Role::System)
    } else if s == "user"@ {
        Some(Role::User)
    } else {
        None
    }
}

impl TryFrom<String> for Role {
    type Error = ValidationError;

    fn try_from(value: String) -> (r: Result<Role, ValidationError>) {
        let assistant = "assistant".to_owned();
        let user = "user".to_owned();
        let system = "system".to_owned();
        proof {
            reveal_strlit("user");
            reveal_strlit("system");
            assert("user"@.len() != "system"@.len());
        }
        if value == assistant {
            Ok(Role::Assistant)
        } else if value == user {
            Ok(Role::User)
        } else if value == system {
            Ok(Role::System)
        } else {
            Err(ValidationError::Role(value))
        }
    }
}

impl vstd::std_specs::convert::TryFromSpecImpl<String> for Role {
    open spec fn obeys_try_from_spec() -> bool {
        true
    }

    open spec fn try_from_spec(value: String) -> Result<Role, ValidationError> {
        match parse_role(value@) {
            Some(r) => Ok(r),
            None => Err(ValidationError::Role(value)),
        }
    }
}

impl Role {
    /// The wire spelling of this role.
    pub fn as_wire(&self) -> (r: String)
        ensures
            r@ == role_wire(*self),
    {
        match self {
            Role::Assistant => "assistant".to_owned(),
            Role::User => "user".to_owned(),
            Role::System => "system".to_owned(),
        }
    }
}

/// Why the service stopped generating a choice.
#[derive(Debug, Clone, Copy, PartialEq, Eq, Structural)]
pub enum FinishReason {
    Stop,
    Length,
    ContentFilter,
    Null,
}

/// The wire spelling of a finish reason.
pub open spec fn finish_reason_wire(f: FinishReason) -> Seq<char> {
    match f {
        FinishReason::Stop => "stop"@,
        FinishReason::Length => "length"@,
        FinishReason::ContentFilter => "content_filter"@,
        FinishReason::Null => "null"@,
    }
}

/// The finish reason whose wire spelling is `s`, if there is one.
pub open spec fn parse_finish_reason(s: Seq<char>) -> Option<FinishReason> {
    if s == "stop"@ {
        Some(FinishReason::Stop)
    } else if s == "length"@ {
        Some(FinishReason::Length)
    } else if s == "content_filter"@ {
        Some(FinishReason::ContentFilter)
    } else if s == "null"@ {
        Some(FinishReason::Null)
    } else {
        None
    }
}

/// The four spellings of finish reasons differ pairwise.
proof fn lemma_finish_reason_spellings_distinct()
    ensures
        distinct_finish_reason_spellings(),
{
    reveal_strlit("stop");
    reveal_strlit("length");
    reveal_strlit("content_filter");
    reveal_strlit("null");
    assert("stop"@.len() != "length"@.len());
    assert("stop"@.len() != "content_filter"@.len());
    assert("stop"@[0] != "null"@[0]);
    assert("length"@.len() != "content_filter"@.len());
    assert("length"@.len() != "null"@.len());
    assert("content_filter"@.len() != "null"@.len());
}

spec fn distinct_finish_reason_spellings() -> bool {
    &&& "stop"@ != "length"@
    &&& "stop"@ != "content_filter"@
    &&& "stop"@ != "null"@
    &&& "length"@ != "content_filter"@
    &&& "length"@ != "null"@
    &&& "content_filter"@ != "null"@
}

impl TryFrom<String> for FinishReason {
    type Error = ValidationError;

    fn try_from(value: String) -> (r: Result<FinishReason, ValidationError>) {
        let stop = "stop".to_owned();
        let length = "length".to_owned();
        let content_filter = "content_filter".to_owned();
        let null = "null".to_owned();
        proof {
            lemma_finish_reason_spellings_distinct();
        }
        if value == stop {
            Ok(FinishReason::Stop)
        } else if value == length {
            Ok(FinishReason::Length)
        } else if value == content_filter {
            Ok(FinishReason::ContentFilter)
        } else if value == null {
            Ok(FinishReason::Null)
        } else {
            Err(ValidationError::FinishReason(value))
        }
    }
}

impl vstd::std_specs::convert::TryFromSpecImpl<String> for FinishReason {
    open spec fn obeys_try_from_spec() -> bool {
        true
    }

    open spec fn try_from_spec(value: String) -> Result<FinishReason, ValidationError> {
        match parse_finish_reason(value@) {
            Some(f) => Ok(f),
            None => Err(ValidationError::FinishReason(value)),
        }
    }
}

impl FinishReason {
    /// The wire spelling of this finish reason.
    pub fn as_wire(&self) -> (r: String)
        ensures
            r@ == finish_reason_wire(*self),
    {
        match self {
            FinishReason::Stop => "stop".to_owned(),
            FinishReason::Length => "length".to_owned(),
            FinishReason::ContentFilter => "content_filter".to_owned(),
            FinishReason::Null => "null".to_owned(),
        }
    }
}

/// The models that a request can name.
#[derive(Debug, Clone, Copy, PartialEq, Eq, Structural)]
pub enum Model {
    GPT4,
    GPT3_5Turbo,
}

/// The wire spelling of a model.
pub open spec fn model_wire(m: Model) -> Seq<char> {
    match m {
        Model::GPT4 => "gpt-4"@,
        Model::GPT3_5Turbo => "gpt-3.5-turbo"@,
    }
}

/// The model whose wire spelling is `s`, if there is one.
pub open spec fn parse_model(s: Seq<char>) -> Option<Model> {
    if s == "gpt-4"@ {
        Some(Model::GPT4)
    } else if s == "gpt-3.5-turbo"@ {
        Some(Model::GPT3_5Turbo)
    } else {
        None
    }
}

impl TryFrom<String> for Model {
    type Error = ValidationError;

    fn try_from(value: String) -> (r: Result<Model, ValidationError>) {
        let gpt4 = "gpt-4".to_owned();
        let gpt35 = "gpt-3.5-turbo".to_owned();
        if value == gpt4 {
            Ok(Model::GPT4)
        } else if value == gpt35 {
            Ok(Model::GPT3_5Turbo)
        } else {
            Err(ValidationError::Model(value))
        }
    }
}

impl vstd::std_specs::convert::TryFromSpecImpl<String> for Model {
    open spec fn obeys_try_from_spec() -> bool {
        true
    }

    open spec fn try_from_spec(value: String) -> Result<Model, ValidationError> {
        match parse_model(value@) {
            Some(m) => Ok(m),
            None => Err(ValidationError::Model(value)),
        }
    }
}

/// Every model survives encoding then decoding, and a string that spells no
/// model is refused with a model validation error that carries it unchanged.
pub proof fn model_wire_round_trip(m: Model, s: String)
    ensures
        parse_model(model_wire(m)) == Some(m),
        s@ == model_wire(m) ==> Model::try_from_spec(s) == Ok::<Model, ValidationError>(m),
        (forall|q: Model| s@ != #[trigger] model_wire(q)) ==> Model::try_from_spec(s)
            == Err::<Model, ValidationError>(ValidationError::Model(s)),
{
    reveal_strlit("gpt-4");
    reveal_strlit("gpt-3.5-turbo");
    assert("gpt-4"@.len() != "gpt-3.5-turbo"@.len());
    if forall|q: Model| s@ != #[trigger] model_wire(q) {
        assert(s@ != model_wire(Model::GPT4));
        assert(s@ != model_wire(Model::GPT3_5Turbo));
    }
}

impl Model {
    /// The wire spelling of this model.
    pub fn as_wire(&self) -> (r: String)
        ensures
            r@ == model_wire(*self),
    {
        match self {
            Model::GPT4 => "gpt-4".to_owned(),
            Model::GPT3_5Turbo => "gpt-3.5-turbo".to_owned(),
        }
    }
}

/// Token accounting of one exchange.
#[derive(Debug, Clone, Copy, PartialEq, Eq, Structural)]
pub struct TokenUsage {
    prompt_tokens: u32,
    completion_tokens: u32,
    total_tokens: u32,
}

impl TokenUsage {
    pub closed spec fn spec_prompt(&self) -> u32 {
        self.prompt_tokens
    }

    pub closed spec fn spec_completion(&self) -> u32 {
        self.completion_tokens
    }

    pub closed spec fn spec_total(&self) -> u32 {
        self.total_tokens
    }

    pub fn new(prompt_tokens: u32, completion_tokens: u32, total_tokens: u32) -> (r: TokenUsage)
        ensures
            r.spec_prompt() == prompt_tokens,
            r.spec_completion() == completion_tokens,
            r.spec_total() == total_tokens,
    {
        TokenUsage { prompt_tokens, completion_tokens, total_tokens }
    }

    pub fn prompt(&self) -> (r: u32)
        ensures
            r == self.spec_prompt(),
    {
        self.prompt_tokens
    }

    pub fn completion(&self) -> (r: u32)
        ensures
            r == self.spec_completion(),
    {
        self.completion_tokens
    }

    pub fn total(&self) -> (r: u32)
        ensures
            r == self.spec_total(),
    {
        self.total_tokens
    }
}

/// One message of a conversation: who wrote it, and its text.
#[derive(Debug, Clone)]
pub struct Message {
    role: Role,
    content: String,
}

impl Message {
    pub closed spec fn spec_role(&self) -> Role {
        self.role
    }

    pub closed spec fn spec_content(&self) -> Seq<char> {
        self.content@
    }

    pub fn new(role: Role, content: &str) -> (r: Message)
        ensures
            r.spec_role() == role,
            r.spec_content() == content@,
    {
        Message { role, content: content.to_owned() }
    }

    pub fn get_content(&self) -> (r: &String)
        ensures
            r@ == self.spec_content(),
    {
        &self.content
    }

    pub fn get_role(&self) -> (r: Role)
        ensures
            r == self.spec_role(),
    {
        self.role
    }
}

/// One candidate completion, with its rank among the others.
#[derive(Debug, Clone)]
pub struct Choice {
    message: Message,
    finish_reason: FinishReason,
    index: u32,
}

impl Choice {
    pub closed spec fn spec_message(&self) -> Message {
        self.message
    }

    pub closed spec fn spec_finish_reason(&self) -> FinishReason {
        self.finish_reason
    }

    pub closed spec fn spec_index(&self) -> u32 {
        self.index
    }

    pub fn new(message: Message, finish_reason: FinishReason, index: u32) -> (r: Choice)
        ensures
            r.spec_message() == message,
            r.spec_finish_reason() == finish_reason,
            r.spec_index() == index,
    {
        Choice { message, finish_reason, index }
    }

    pub fn get_message(&self) -> (r: &Message)
        ensures
            *r == self.spec_message(),
    {
        &self.message
    }

    pub fn get_finish_reason(&self) -> (r: FinishReason)
        ensures
            r == self.spec_finish_reason(),
    {
        self.finish_reason
    }

    pub fn get_index(&self) -> (r: u32)
        ensures
            r == self.spec_index(),
    {
        self.index
    }
}

/// A completion request: a model and the conversation, in order.
#[derive(Debug, Clone)]
pub struct Request {
    model: Model,
    messages: Vec<Message>,
}

impl Request {
    pub closed spec fn spec_model(&self) -> Model {
        self.model
    }

    pub closed spec fn spec_messages(&self) -> Seq<Message> {
        self.messages@
    }

    /// A request for `model` with no messages yet.
    pub fn new(model: Model) -> (r: Request)
        ensures
            r.spec_model() == model,
            r.spec_messages() == Seq::<Message>::empty(),
    {
        Request { model, messages: Vec::new() }
    }

    /// This request with `message` appended to its conversation.
    pub fn add_message(self, message: Message) -> (r: Request)
        ensures
            r.spec_model() == self.spec_model(),
            r.spec_messages() == self.spec_messages().push(message),
    {
        let mut this = self;
        this.messages.push(message);
        this
    }

    pub fn get_model(&self) -> (r: Model)
        ensures
            r == self.spec_model(),
    {
        self.model
    }

    pub fn get_messages(&self) -> (r: &Vec<Message>)
        ensures
            r@ == self.spec_messages(),
    {
        &self.messages
    }
}

/// A completion response as the service sends it.
#[derive(Debug, Clone)]
pub struct Response {
    id: String,
    object: String,
    created: u64,
    model: String,
    usage: TokenUsage,
    choices: Vec<Choice>,
}

impl Response {
    pub closed spec fn spec_id(&self) -> Seq<char> {
        self.id@
    }

    pub closed spec fn spec_object(&self) -> Seq<char> {
        self.object@
    }

    pub closed spec fn spec_created(&self) -> u64 {
        self.created
    }

    pub closed spec fn spec_model(&self) -> Seq<char> {
        self.model@
    }

    pub closed spec fn spec_usage(&self) -> TokenUsage {
        self.usage
    }

    pub closed spec fn spec_choices(&self) -> Seq<Choice> {
        self.choices@
    }

    pub fn new(
        id: String,
        object: String,
        created: u64,
        model: String,
        usage: TokenUsage,
        choices: Vec<Choice>,
    ) -> (r: Response)
        ensures
            r.spec_id() == id@,
            r.spec_object() == object@,
            r.spec_created() == created,
            r.spec_model() == model@,
            r.spec_usage() == usage,
            r.spec_choices() == choices@,
    {
        Response { id, object, created, model, usage, choices }
    }

    /// The highest-ranked choice, or `None` when there is none.
    pub fn first_choice(&self) -> (r: Option<&Choice>)
        ensures
            self.spec_choices().len() == 0 ==> r.is_none(),
            self.spec_choices().len() > 0 ==> r == Some(&self.spec_choices()[0]),
    {
        if self.choices.len() > 0 {
            Some(&self.choices[0])
        } else {
            None
        }
    }

    pub fn get_choices(&self) -> (r: &Vec<Choice>)
        ensures
            r@ == self.spec_choices(),
    {
        &self.choices
    }

    pub fn get_model(&self) -> (r: &String)
        ensures
            r@ == self.spec_model(),
    {
        &self.model
    }

    pub fn get_id(&self) -> (r: &String)
        ensures
            r@ == self.spec_id(),
    {
        &self.id
    }

    pub fn get_object(&self) -> (r: &String)
        ensures
            r@ == self.spec_object(),
    {
        &self.object
    }

    pub fn get_created(&self) -> (r: u64)
        ensures
            r == self.spec_created(),
    {
        self.created
    }

    pub fn get_usage(&self) -> (r: TokenUsage)
        ensures
            r == self.spec_usage(),
    {
        self.usage
    }
}

/// Every role survives encoding then decoding, and a string that spells no
/// role is refused with a role validation error that carries it unchanged.
pub proof fn role_wire_round_trip(r: Role, s: String)
    ensures
        parse_role(role_wire(r)) == Some(r),
        s@ == role_wire(r) ==> Role::try_from_spec(s) == Ok::<Role, ValidationError>(r),
        (forall|q: Role| s@ != #[trigger] role_wire(q)) ==> Role::try_from_spec(s)
            == Err::<Role, ValidationError>(ValidationError::Role(s)),
{
    reveal_strlit("assistant");
    reveal_strlit("system");
    reveal_strlit("user");
    assert("assistant"@.len() != "system"@.len());
    assert("assistant"@.len() != "user"@.len());
    assert("system"@.len() != "user"@.len());
    if forall|q: Role| s@ != #[trigger] role_wire(q) {
        assert(s@ != role_wire(Role::Assistant));
        assert(s@ != role_wire(Role::System));
        assert(s@ != role_wire(Role::User));
    }
}

/// Every finish reason survives encoding then decoding, and a string that
/// spells none is refused with a finish-reason validation error that carries
/// it unchanged.
pub proof fn finish_reason_wire_round_trip(f: FinishReason, s: String)
    ensures
        parse_finish_reason(finish_reason_wire(f)) == Some(f),
        s@ == finish_reason_wire(f) ==> FinishReason::try_from_spec(s) == Ok::<
            FinishReason,
            ValidationError,
        >(f),
        (forall|q: FinishReason| s@ != #[trigger] finish_reason_wire(q))
            ==> FinishReason::try_from_spec(s) == Err::<FinishReason, ValidationError>(
            ValidationError::FinishReason(s),
        ),
{
    lemma_finish_reason_spellings_distinct();
    if forall|q: FinishReason| s@ != #[trigger] finish_reason_wire(q) {
        assert(s@ != finish_reason_wire(FinishReason::Stop));
        assert(s@ != finish_reason_wire(FinishReason::Length));
        assert(s@ != finish_reason_wire(FinishReason::ContentFilter));
        assert(s@ != finish_reason_wire(FinishReason::Null));
    }
}

} // verus!
