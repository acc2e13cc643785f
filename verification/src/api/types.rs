//! Wire types of the chat completion endpoint, with their models.

use vstd::prelude::*;

verus! {

/// Declares `serde_json::Value`, the type of a reply's tool calls. A value
/// of it is carried along as it came; nothing is claimed of what it holds.
#[verifier::external_type_specification]
#[verifier::external_body]
pub struct ExJsonValue(serde_json::Value);

/// Who speaks in a message of a conversation.
#[derive(Clone, Copy, Debug, PartialEq, Eq, Structural)]
pub enum Role {
    System,
    User,
    Assistant,
}

impl Role {
    /// The name of the role on the wire.
    pub open spec fn wire_name(self) -> Seq<char> {
        match self {
            Role::System => "system"@,
            Role::User => "user"@,
            Role::Assistant => "assistant"@,
        }
    }

    /// The name of the role on the wire.
    pub fn as_str(&self) -> (name: &'static str)
        ensures
            name@ == self.wire_name(),
    {
        match self {
            Role::System => "system",
            Role::User => "user",
            Role::Assistant => "assistant",
        }
    }
}

/// One message of a conversation sent to the endpoint.
#[derive(Clone, Debug, PartialEq, Eq)]
pub struct Message {
    pub role: Role,
    pub content: String,
}

/// The model of a [`Message`].
pub struct MessageView {
    pub role: Role,
    pub content: Seq<char>,
}

impl View for Message {
    type V = MessageView;

    open spec fn view(&self) -> MessageView {
        MessageView { role: self.role, content: self.content@ }
    }
}

/// The models the endpoint offers.
#[derive(Clone, Copy, Debug, PartialEq, Eq, Structural)]
pub enum ModelType {
    MistralLarge,
    MistralSmall,
    Codestral,
}

impl ModelType {
    /// The identifier of the model on the wire.
    pub open spec fn identifier(self) -> Seq<char> {
        match self {
            ModelType::MistralLarge => "mistral-large-latest"@,
            ModelType::MistralSmall => "mistral-small-latest"@,
            ModelType::Codestral => "codestral-latest"@,
        }
    }

    /// The identifier of the model on the wire.
    pub fn as_str(&self) -> (name: &'static str)
        ensures
            name@ == self.identifier(),
    {
        match self {
            ModelType::MistralLarge => "mistral-large-latest",
            ModelType::MistralSmall => "mistral-small-latest",
            ModelType::Codestral => "codestral-latest",
        }
    }
}

/// The body of one chat completion request. It is built afresh for every
/// call and carries nothing over from earlier ones.
#[derive(Clone, Debug, PartialEq, Eq)]
pub struct ApiRequest {
    pub model: ModelType,
    pub messages: Vec<Message>,
}

/// The model of an [`ApiRequest`].
pub struct ApiRequestView {
    pub model: ModelType,
    pub messages: Seq<MessageView>,
}

impl View for ApiRequest {
    type V = ApiRequestView;

    open spec fn view(&self) -> ApiRequestView {
        ApiRequestView { model: self.model, messages: messages_view(self.messages@) }
    }
}

/// The models of a run of messages, in order.
pub open spec fn messages_view(messages: Seq<Message>) -> Seq<MessageView> {
    Seq::new(messages.len(), |i: int| messages[i]@)
}

impl ApiRequestView {
    /// A conversation that the endpoint can be asked to continue: it holds
    /// a message, and no system message follows a user message.
    pub open spec fn well_formed(self) -> bool {
        &&& self.messages.len() > 0
        &&& forall|i: int, j: int|
            0 <= i < self.messages.len() && 0 <= j < self.messages.len()
                && (#[trigger] self.messages[i]).role == Role::User
                && (#[trigger] self.messages[j]).role == Role::System ==> j < i
    }
}

impl ApiRequest {
    /// Whether the conversation can be sent: it holds a message, and no
    /// system message follows a user message.
    pub fn is_well_formed(&self) -> (well_formed: bool)
        ensures
            well_formed == self@.well_formed(),
    {
        if self.messages.len() == 0 {
            return false;
        }
        let ghost view = self@.messages;
        let mut seen_user = false;
        let mut n: usize = 0;
        while n < self.messages.len()
            invariant
                n <= self.messages@.len(),
                view == self@.messages,
                view.len() == self.messages@.len(),
                seen_user <==> exists|i: int| 0 <= i < n && (#[trigger] view[i]).role == Role::User,
                forall|i: int, j: int|
                    0 <= i < n && 0 <= j < n && (#[trigger] view[i]).role == Role::User && (
                    #[trigger] view[j]).role == Role::System ==> j < i,
            decreases self.messages@.len() - n,
        {
            assert(view[n as int] == self.messages@[n as int]@);
            match self.messages[n].role {
                Role::System => {
                    if seen_user {
                        proof {
                            let i = choose|i: int|
                                0 <= i < n && (#[trigger] view[i]).role == Role::User;
                            assert(view[i].role == Role::User && view[n as int].role
                                == Role::System && !(n < i));
                        }
                        return false;
                    }
                },
                Role::User => {
                    seen_user = true;
                },
                Role::Assistant => {},
            }
            n += 1;
        }
        true
    }
}

/// The message of one completion choice.
#[derive(Clone, Debug)]
pub struct JsonField {
    pub role: String,
    pub content: String,
    pub tool_calls: Option<serde_json::Value>,
}

/// The model of a [`JsonField`]: its texts, and the tool calls as they
/// came.
pub struct JsonFieldView {
    pub role: Seq<char>,
    pub content: Seq<char>,
    pub tool_calls: Option<serde_json::Value>,
}

impl View for JsonField {
    type V = JsonFieldView;

    open spec fn view(&self) -> JsonFieldView {
        JsonFieldView { role: self.role@, content: self.content@, tool_calls: self.tool_calls }
    }
}

/// One completion choice. A reply need not number its choices nor say why
/// each one ended; what it says of either is carried along.
#[derive(Clone, Debug)]
pub struct Choice {
    pub message: JsonField,
    pub index: Option<u32>,
    pub finish_reason: Option<String>,
}

/// The model of a [`Choice`].
pub struct ChoiceView {
    pub message: JsonFieldView,
    pub index: Option<u32>,
    pub finish_reason: Option<Seq<char>>,
}

impl View for Choice {
    type V = ChoiceView;

    open spec fn view(&self) -> ChoiceView {
        ChoiceView {
            message: self.message@,
            index: self.index,
            finish_reason: match self.finish_reason {
                Some(reason) => Some(reason@),
                None => None,
            },
        }
    }
}

/// A chat completion reply that parsed.
#[derive(Clone, Debug)]
pub struct ApiResponse {
    pub choices: Vec<Choice>,
}

impl View for ApiResponse {
    type V = Seq<ChoiceView>;

    open spec fn view(&self) -> Seq<ChoiceView> {
        Seq::new(self.choices@.len(), |i: int| self.choices@[i]@)
    }
}

} // verus!
