//! The chat completion client: the request that is sent for a text, and the
//! text or failure that a reply amounts to.

use crate::api::types::{
    ApiRequest, ApiRequestView, ApiResponse, ChoiceView, Message, MessageView, ModelType, Role,
};
use crate::config::{found_view, load_api_key, API_KEY};
use crate::error::{text_outcome, Error, ErrorView};
use vstd::prelude::*;
use vstd::string::*;

verus! {

/// Where chat completions are asked for.
pub const CHAT_ENDPOINT: &'static str = "https://api.mistral.ai/v1/chat/completions";

/// The instruction that opens every plain conversation.
pub const SYSTEM_PROMPT: &'static str = "You are a helpful assistant who speak directly";

/// The status with which the endpoint turns a credential down.
pub const UNAUTHORIZED: u16 = 401;

/// One header of a request.
#[derive(Clone, Debug)]
pub struct Header {
    pub name: String,
    pub value: String,
}

/// The model of a [`Header`].
pub struct HeaderView {
    pub name: Seq<char>,
    pub value: Seq<char>,
}

impl View for Header {
    type V = HeaderView;

    open spec fn view(&self) -> HeaderView {
        HeaderView { name: self.name@, value: self.value@ }
    }
}

/// One request to the chat endpoint, ready to be posted: the address, the
/// headers in the order in which they are set, and the body to be sent as
/// JSON.
#[derive(Clone, Debug)]
pub struct ChatCall {
    pub url: String,
    pub headers: Vec<Header>,
    pub body: ApiRequest,
}

/// The model of a [`ChatCall`].
pub struct ChatCallView {
    pub url: Seq<char>,
    pub headers: Seq<HeaderView>,
    pub body: ApiRequestView,
}

impl View for ChatCall {
    type V = ChatCallView;

    open spec fn view(&self) -> ChatCallView {
        ChatCallView {
            url: self.url@,
            headers: Seq::new(self.headers@.len(), |i: int| self.headers@[i]@),
            body: self.body@,
        }
    }
}

/// The conversation that puts `user_input` to the small model under
/// `instruction`: a system message that holds the instruction, then a user
/// message that holds the text, each as it stands.
pub open spec fn instructed(instruction: Seq<char>, user_input: Seq<char>) -> ApiRequestView {
    ApiRequestView {
        model: ModelType::MistralSmall,
        messages: seq![
            MessageView { role: Role::System, content: instruction },
            MessageView { role: Role::User, content: user_input },
        ],
    }
}

/// The conversation that asks for an answer to `user_input`: the text
/// under the instruction that opens every plain conversation.
pub open spec fn conversation(user_input: Seq<char>) -> ApiRequestView {
    instructed(SYSTEM_PROMPT@, user_input)
}

/// The request that asks the endpoint to continue the conversation `body`
/// under the credential `key`.
pub open spec fn chat_call(key: Seq<char>, body: ApiRequestView) -> ChatCallView {
    ChatCallView {
        url: CHAT_ENDPOINT@,
        headers: seq![
            HeaderView { name: "Content-Type"@, value: "application/json"@ },
            HeaderView { name: "Authorization"@, value: "Bearer "@ + key },
        ],
        body,
    }
}

/// The request for the conversation `body`, or the failure that stands in
/// its way.
pub open spec fn prepared_call(found: Option<Seq<char>>, body: ApiRequestView) -> Result<
    ChatCallView,
    ErrorView,
> {
    match found {
        Some(key) => Ok(chat_call(key, body)),
        None => Err(ErrorView::ConfigurationError(API_KEY@)),
    }
}

/// The model of a request that may have failed to come about.
pub open spec fn call_outcome(r: Result<ChatCall, Error>) -> Result<ChatCallView, ErrorView> {
    match r {
        Ok(call) => Ok(call@),
        Err(failure) => Err(failure@),
    }
}

/// The body of the request that puts `user_input` to the small model
/// under `instruction`.
pub fn instructed_request(instruction: &str, user_input: &str) -> (request: ApiRequest)
    ensures
        request@ == instructed(instruction@, user_input@),
        request@.well_formed(),
{
    let mut messages: Vec<Message> = Vec::new();
    messages.push(Message { role: Role::System, content: String::from_str(instruction) });
    messages.push(Message { role: Role::User, content: String::from_str(user_input) });
    let request = ApiRequest { model: ModelType::MistralSmall, messages };
    assert(request@.messages =~= instructed(instruction@, user_input@).messages);
    request
}

/// The body of the request that asks for an answer to `user_input`.
pub fn chat_request(user_input: &str) -> (request: ApiRequest)
    ensures
        request@ == conversation(user_input@),
        request@.well_formed(),
{
    instructed_request(SYSTEM_PROMPT, user_input)
}

/// Prepares the one request that asks the chat endpoint to continue the
/// conversation `request`. `found` is what the lookup of the credential
/// gave. Without a credential there is no request to send, and the
/// configuration error is returned in its place. The conversation must
/// hold a message, and no system message after a user message.
pub fn complete(found: Option<String>, request: ApiRequest) -> (r: Result<ChatCall, Error>)
    requires
        request@.well_formed(),
    ensures
        call_outcome(r) == prepared_call(found_view(found), request@),
{
    match load_api_key(found) {
        Err(failure) => Err(failure),
        Ok(key) => {
            let mut headers: Vec<Header> = Vec::new();
            headers.push(
                Header {
                    name: String::from_str("Content-Type"),
                    value: String::from_str("application/json"),
                },
            );
            headers.push(
                Header {
                    name: String::from_str("Authorization"),
                    value: String::from_str("Bearer ").concat(key.as_str()),
                },
            );
            let call = ChatCall { url: String::from_str(CHAT_ENDPOINT), headers, body: request };
            assert(call@.headers =~= chat_call(key@, request@).headers);
            Ok(call)
        },
    }
}

/// Prepares the one request that asks the chat endpoint for an answer to
/// `user_input`: the system instruction, then the text, for the small
/// model. `found` is what the lookup of the credential gave. Without a
/// credential there is no request to send, and the configuration error is
/// returned in its place.
pub fn make_api_call(found: Option<String>, user_input: &str) -> (r: Result<ChatCall, Error>)
    ensures
        call_outcome(r) == prepared_call(found_view(found), conversation(user_input@)),
{
    complete(found, chat_request(user_input))
}

/// What came back for one request.
#[derive(Debug)]
pub enum ChatReply {
    /// The request failed at the network level. Carries the transport's
    /// description.
    Unreachable(String),
    /// A reply arrived: its status, its body as text, and the body parsed,
    /// or the parser's complaint.
    Received { status: u16, body: String, parsed: Result<ApiResponse, String> },
}

/// The model of a [`ChatReply`].
pub enum ChatReplyView {
    Unreachable(Seq<char>),
    Received { status: u16, body: Seq<char>, parsed: Result<Seq<ChoiceView>, Seq<char>> },
}

impl View for ChatReply {
    type V = ChatReplyView;

    open spec fn view(&self) -> ChatReplyView {
        match self {
            ChatReply::Unreachable(detail) => ChatReplyView::Unreachable(detail@),
            ChatReply::Received { status, body, parsed } => ChatReplyView::Received {
                status: *status,
                body: body@,
                parsed: match parsed {
                    Ok(response) => Ok(response@),
                    Err(detail) => Err(detail@),
                },
            },
        }
    }
}

/// The text of the first of `choices`. A reply without a choice parsed, and
/// is empty all the same.
pub open spec fn first_content(choices: Seq<ChoiceView>) -> Result<Seq<char>, ErrorView> {
    if choices.len() == 0 {
        Err(ErrorView::EmptyResult)
    } else {
        Ok(choices[0].message.content)
    }
}

/// The text that `reply` amounts to, or the failure that it is.
pub open spec fn completion(reply: ChatReplyView) -> Result<Seq<char>, ErrorView> {
    match reply {
        ChatReplyView::Unreachable(detail) => Err(ErrorView::TransportFailure(detail)),
        ChatReplyView::Received { status, body, parsed } => {
            if status == UNAUTHORIZED {
                Err(ErrorView::AuthFailure)
            } else {
                match parsed {
                    Err(detail) => Err(ErrorView::MalformedResponse { detail, raw: body }),
                    Ok(choices) => first_content(choices),
                }
            }
        },
    }
}

/// The text of the first choice of `response`.
pub fn first_choice(response: &ApiResponse) -> (r: Result<String, Error>)
    ensures
        text_outcome(r) == first_content(response@),
{
    if response.choices.len() == 0 {
        Err(Error::EmptyResult)
    } else {
        Ok(response.choices[0].message.content.clone())
    }
}

/// Reads what came back for a request: the text of the first choice, or
/// the failure that the reply is. A transport failure, a rejected
/// credential, a body of the wrong shape and a reply without a choice are
/// told apart, in this order.
pub fn read_api_reply(reply: ChatReply) -> (r: Result<String, Error>)
    ensures
        text_outcome(r) == completion(reply@),
{
    match reply {
        ChatReply::Unreachable(detail) => Err(Error::TransportFailure(detail)),
        ChatReply::Received { status, body, parsed } => {
            if status == UNAUTHORIZED {
                Err(Error::AuthFailure)
            } else {
                match parsed {
                    Err(detail) => Err(Error::MalformedResponse { detail, raw: body }),
                    Ok(response) => first_choice(&response),
                }
            }
        },
    }
}

/// The conversation for any instruction and any text can be sent as it
/// is: it holds the system message with the instruction and then the user
/// message with the text, and nothing else.
pub proof fn lemma_instructed_well_formed(instruction: Seq<char>, user_input: Seq<char>)
    ensures
        instructed(instruction, user_input).well_formed(),
        instructed(instruction, user_input).messages.len() == 2,
        instructed(instruction, user_input).messages[0] == (MessageView {
            role: Role::System,
            content: instruction,
        }),
        instructed(instruction, user_input).messages[1] == (MessageView {
            role: Role::User,
            content: user_input,
        }),
        conversation(user_input) == instructed(SYSTEM_PROMPT@, user_input),
{
}

/// No request comes about without a credential, and every reply is read as
/// exactly one of a text and the four failures of a call.
pub proof fn lemma_call_outcomes(
    found: Option<Seq<char>>,
    body: ApiRequestView,
    reply: ChatReplyView,
)
    ensures
        prepared_call(found, body) is Ok <==> found is Some,
        match completion(reply) {
            Ok(_) => reply is Received && reply->status != UNAUTHORIZED && reply->parsed is Ok
                && reply->parsed->Ok_0.len() > 0,
            Err(ErrorView::TransportFailure(_)) => reply is Unreachable,
            Err(ErrorView::AuthFailure) => reply is Received && reply->status == UNAUTHORIZED,
            Err(ErrorView::MalformedResponse { .. }) => reply is Received && reply->status
                != UNAUTHORIZED && reply->parsed is Err,
            Err(ErrorView::EmptyResult) => reply is Received && reply->status != UNAUTHORIZED
                && reply->parsed is Ok && reply->parsed->Ok_0.len() == 0,
            Err(_) => false,
        },
{
}

} // verus!
