use music_chat::api::client::{
    chat_request, complete, first_choice, instructed_request, make_api_call, read_api_reply,
    ChatReply, CHAT_ENDPOINT, SYSTEM_PROMPT,
};
use music_chat::api::types::{
    ApiRequest, ApiResponse, Choice, JsonField, Message, ModelType, Role,
};
use music_chat::config::{load_api_key, load_jamendo_client_id};
use music_chat::error::Error;

fn choice(index: u32, content: &str) -> Choice {
    Choice {
        message: JsonField {
            role: "assistant".to_string(),
            content: content.to_string(),
            tool_calls: None,
        },
        index: Some(index),
        finish_reason: Some("stop".to_string()),
    }
}

#[test]
fn roles_and_models_have_their_wire_names() {
    assert_eq!(Role::System.as_str(), "system");
    assert_eq!(Role::User.as_str(), "user");
    assert_eq!(Role::Assistant.as_str(), "assistant");
    assert_eq!(ModelType::MistralLarge.as_str(), "mistral-large-latest");
    assert_eq!(ModelType::MistralSmall.as_str(), "mistral-small-latest");
    assert_eq!(ModelType::Codestral.as_str(), "codestral-latest");
}

#[test]
fn missing_settings_are_configuration_errors() {
    assert_eq!(
        load_api_key(None),
        Err(Error::ConfigurationError("MISTRAL_API_KEY".to_string()))
    );
    assert_eq!(
        load_jamendo_client_id(None),
        Err(Error::ConfigurationError("JAMENDO_CLIENT_ID".to_string()))
    );
}

#[test]
fn found_settings_are_returned_as_found() {
    assert_eq!(load_api_key(Some("sk-1".to_string())), Ok("sk-1".to_string()));
    assert_eq!(load_jamendo_client_id(Some(String::new())), Ok(String::new()));
}

#[test]
fn chat_request_holds_the_system_message_then_the_user_message() {
    let request = chat_request("what's your favorite genre?");
    assert_eq!(request.model, ModelType::MistralSmall);
    assert_eq!(request.messages.len(), 2);
    assert_eq!(request.messages[0].role, Role::System);
    assert_eq!(request.messages[0].content, SYSTEM_PROMPT);
    assert_eq!(request.messages[0].content, "You are a helpful assistant who speak directly");
    assert_eq!(request.messages[1].role, Role::User);
    assert_eq!(request.messages[1].content, "what's your favorite genre?");
}

fn message(role: Role, content: &str) -> Message {
    Message { role, content: content.to_string() }
}

fn request(messages: Vec<Message>) -> ApiRequest {
    ApiRequest { model: ModelType::Codestral, messages }
}

#[test]
fn conversation_without_messages_is_not_well_formed() {
    assert!(!request(vec![]).is_well_formed());
}

#[test]
fn conversation_with_system_before_user_is_well_formed() {
    assert!(chat_request("hello").is_well_formed());
    assert!(request(vec![message(Role::User, "hi")]).is_well_formed());
    assert!(request(vec![message(Role::System, "be brief")]).is_well_formed());
    assert!(request(vec![message(Role::Assistant, "hello")]).is_well_formed());
    assert!(request(vec![
        message(Role::System, "be brief"),
        message(Role::System, "be kind"),
        message(Role::User, "hi"),
        message(Role::Assistant, "hello"),
        message(Role::User, "bye"),
    ])
    .is_well_formed());
}

#[test]
fn conversation_with_system_after_user_is_not_well_formed() {
    assert!(!request(vec![message(Role::User, "hi"), message(Role::System, "be brief")])
        .is_well_formed());
    assert!(!request(vec![
        message(Role::System, "be brief"),
        message(Role::User, "hi"),
        message(Role::Assistant, "hello"),
        message(Role::System, "be kind"),
    ])
    .is_well_formed());
}

#[test]
fn complete_sends_the_conversation_as_given() {
    let conversation = request(vec![
        message(Role::System, "be brief"),
        message(Role::User, "hi"),
        message(Role::Assistant, "hello"),
        message(Role::User, "bye"),
    ]);
    assert!(conversation.is_well_formed());
    let call = complete(Some("key".to_string()), conversation).unwrap();
    assert_eq!(call.url, "https://api.mistral.ai/v1/chat/completions");
    assert_eq!(call.headers[1].value, "Bearer key");
    assert_eq!(call.body.model, ModelType::Codestral);
    assert_eq!(call.body.messages.len(), 4);
    assert_eq!(call.body.messages[0].content, "be brief");
    assert_eq!(call.body.messages[2].role, Role::Assistant);
    assert_eq!(call.body.messages[3].content, "bye");
}

#[test]
fn complete_without_credential_is_a_configuration_error() {
    let r = complete(None, request(vec![message(Role::User, "hi")]));
    match r {
        Err(failure) => {
            assert_eq!(failure, Error::ConfigurationError("MISTRAL_API_KEY".to_string()))
        }
        Ok(_) => panic!("a call was prepared without a credential"),
    }
}

#[test]
fn instructed_request_holds_the_instruction_then_the_text() {
    let request = instructed_request("answer in one word", "  what is jazz? ");
    assert_eq!(
        request,
        ApiRequest {
            model: ModelType::MistralSmall,
            messages: vec![
                message(Role::System, "answer in one word"),
                message(Role::User, "  what is jazz? "),
            ],
        }
    );
    assert!(request.is_well_formed());
    assert_eq!(chat_request("hi"), instructed_request(SYSTEM_PROMPT, "hi"));
}

#[test]
fn call_without_credential_is_a_configuration_error() {
    let r = make_api_call(None, "hello");
    match r {
        Err(failure) => {
            assert_eq!(failure, Error::ConfigurationError("MISTRAL_API_KEY".to_string()))
        }
        Ok(_) => panic!("a call was prepared without a credential"),
    }
}

#[test]
fn call_with_credential_is_addressed_and_authorised() {
    let call = make_api_call(Some("sk-123".to_string()), "hello there").unwrap();
    assert_eq!(call.url, CHAT_ENDPOINT);
    assert_eq!(call.url, "https://api.mistral.ai/v1/chat/completions");
    assert_eq!(call.headers.len(), 2);
    assert_eq!(call.headers[0].name, "Content-Type");
    assert_eq!(call.headers[0].value, "application/json");
    assert_eq!(call.headers[1].name, "Authorization");
    assert_eq!(call.headers[1].value, "Bearer sk-123");
    assert_eq!(call.body.model, ModelType::MistralSmall);
    assert_eq!(call.body.messages.len(), 2);
    assert_eq!(call.body.messages[1].role, Role::User);
    assert_eq!(call.body.messages[1].content, "hello there");
}

#[test]
fn first_choice_gives_the_first_content() {
    let response = ApiResponse { choices: vec![choice(0, "first"), choice(1, "second")] };
    assert_eq!(first_choice(&response), Ok("first".to_string()));
}

#[test]
fn first_choice_of_no_choices_is_empty_result() {
    let response = ApiResponse { choices: vec![] };
    assert_eq!(first_choice(&response), Err(Error::EmptyResult));
}

#[test]
fn reply_with_choices_gives_the_first_content() {
    let reply = ChatReply::Received {
        status: 200,
        body: "{...}".to_string(),
        parsed: Ok(ApiResponse { choices: vec![choice(0, " MUSIC\n"), choice(1, "GENERAL")] }),
    };
    assert_eq!(read_api_reply(reply), Ok(" MUSIC\n".to_string()));
}

#[test]
fn unreachable_endpoint_is_transport_failure() {
    let reply = ChatReply::Unreachable("dns error".to_string());
    assert_eq!(read_api_reply(reply), Err(Error::TransportFailure("dns error".to_string())));
}

#[test]
fn rejected_credential_is_auth_failure() {
    let reply = ChatReply::Received {
        status: 401,
        body: "{\"message\":\"Unauthorized\"}".to_string(),
        parsed: Err("missing field `choices` at line 1 column 26".to_string()),
    };
    assert_eq!(read_api_reply(reply), Err(Error::AuthFailure));
}

#[test]
fn body_of_wrong_shape_is_malformed_response_with_the_body() {
    let reply = ChatReply::Received {
        status: 200,
        body: "<html>oops</html>".to_string(),
        parsed: Err("expected value at line 1 column 1".to_string()),
    };
    assert_eq!(
        read_api_reply(reply),
        Err(Error::MalformedResponse {
            detail: "expected value at line 1 column 1".to_string(),
            raw: "<html>oops</html>".to_string(),
        })
    );
}

#[test]
fn server_error_with_unparsable_body_is_malformed_response() {
    let reply = ChatReply::Received {
        status: 500,
        body: "internal error".to_string(),
        parsed: Err("expected value at line 1 column 1".to_string()),
    };
    assert_eq!(
        read_api_reply(reply),
        Err(Error::MalformedResponse {
            detail: "expected value at line 1 column 1".to_string(),
            raw: "internal error".to_string(),
        })
    );
}

#[test]
fn reply_without_choices_is_empty_result() {
    let reply = ChatReply::Received {
        status: 200,
        body: "{\"choices\": []}".to_string(),
        parsed: Ok(ApiResponse { choices: vec![] }),
    };
    assert_eq!(read_api_reply(reply), Err(Error::EmptyResult));
}

#[test]
fn choice_that_holds_a_message_alone_gives_its_content() {
    let bare = Choice {
        message: JsonField {
            role: "assistant".to_string(),
            content: "GENERAL".to_string(),
            tool_calls: None,
        },
        index: None,
        finish_reason: None,
    };
    let reply = ChatReply::Received {
        status: 200,
        body: "{\"choices\": [{\"message\": {\"role\": \"assistant\", \"content\": \"GENERAL\"}}]}"
            .to_string(),
        parsed: Ok(ApiResponse { choices: vec![bare] }),
    };
    assert_eq!(read_api_reply(reply), Ok("GENERAL".to_string()));
}

#[test]
fn tool_calls_are_carried_and_not_read() {
    let mut first = choice(0, "answer");
    first.message.tool_calls = Some(serde_json::Value::Bool(true));
    let reply = ChatReply::Received {
        status: 200,
        body: String::new(),
        parsed: Ok(ApiResponse { choices: vec![first] }),
    };
    assert_eq!(read_api_reply(reply), Ok("answer".to_string()));
}

#[test]
fn failure_messages() {
    assert_eq!(
        Error::ConfigurationError("MISTRAL_API_KEY".to_string()).message(),
        "Missing configuration value: MISTRAL_API_KEY"
    );
    assert_eq!(Error::AuthFailure.message(), "The credential was rejected");
    assert_eq!(
        Error::TransportFailure("timed out".to_string()).message(),
        "Transport failure: timed out"
    );
    assert_eq!(
        Error::MalformedResponse { detail: "EOF".to_string(), raw: "{".to_string() }.message(),
        "JSON parse error: EOF\nRaw response: {"
    );
    assert_eq!(Error::EmptyResult.message(), "Empty Api Response");
    assert_eq!(
        Error::NoResults("chill jazz".to_string()).message(),
        "No music found for: 'chill jazz'"
    );
    assert_eq!(Error::InputFailure("eof".to_string()).message(), "Input failure: eof");
}

#[test]
fn only_no_results_is_not_fatal() {
    assert!(!Error::NoResults("q".to_string()).is_fatal());
    assert!(Error::ConfigurationError("X".to_string()).is_fatal());
    assert!(Error::AuthFailure.is_fatal());
    assert!(Error::TransportFailure("t".to_string()).is_fatal());
    assert!(Error::MalformedResponse { detail: String::new(), raw: String::new() }.is_fatal());
    assert!(Error::EmptyResult.is_fatal());
    assert!(Error::InputFailure("i".to_string()).is_fatal());
}
