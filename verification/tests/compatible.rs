use judge::{
    chat_completions_endpoint, http_status_error, EndpointUrl, Error, OpenAiCompatibleChoice,
    OpenAiCompatibleChoiceMessage, OpenAiCompatibleRequest, OpenAiCompatibleResponse,
    ProviderCallRequest, ProviderMessage, ProviderMessageRole, ProviderModelName, ProviderName,
    ResolvedProviderAuthorization,
};

#[test]
fn endpoint_gets_chat_completions_path() {
    let url = EndpointUrl::new("http://localhost:8080/v1").unwrap();
    assert_eq!(chat_completions_endpoint(&url), "http://localhost:8080/v1/chat/completions");
    let url = EndpointUrl::new("http://localhost:8080/v1//").unwrap();
    assert_eq!(chat_completions_endpoint(&url), "http://localhost:8080/v1/chat/completions");
    let url = EndpointUrl::new("/").unwrap();
    assert_eq!(chat_completions_endpoint(&url), "/chat/completions");
}

#[test]
fn request_body_spells_roles_for_the_wire() {
    let request = ProviderCallRequest::new(
        ProviderName::unchecked("local"),
        ProviderModelName::unchecked("llama"),
        None,
        ResolvedProviderAuthorization::no_secret(),
        vec![
            ProviderMessage::system("s"),
            ProviderMessage::user("u"),
            ProviderMessage::assistant("a"),
        ],
    );
    let body = OpenAiCompatibleRequest::from_call(&request);
    assert_eq!(body.model, "llama");
    let pairs: Vec<(String, String)> = body
        .messages
        .iter()
        .map(|message| (message.role.clone(), message.content.clone()))
        .collect();
    assert_eq!(
        pairs,
        vec![
            ("system".to_string(), "s".to_string()),
            ("user".to_string(), "u".to_string()),
            ("assistant".to_string(), "a".to_string()),
        ]
    );
    assert_eq!(ProviderMessageRole::User.wire_name(), "user");
}

#[test]
fn response_reply_is_the_first_choice() {
    let empty = OpenAiCompatibleResponse { choices: Vec::new() };
    assert_eq!(
        empty.into_reply(),
        Err(Error::ProviderResponse("missing first choice".to_string()))
    );
    let response = OpenAiCompatibleResponse {
        choices: vec![
            OpenAiCompatibleChoice {
                message: OpenAiCompatibleChoiceMessage { content: "Accept".to_string() },
            },
            OpenAiCompatibleChoice {
                message: OpenAiCompatibleChoiceMessage { content: "Reject".to_string() },
            },
        ],
    };
    let reply = response.into_reply().unwrap();
    assert_eq!(reply.output_text(), "Accept");
    assert!(reply.diagnostics().is_empty());
}

#[test]
fn http_failures_name_the_status() {
    assert_eq!(
        http_status_error("404 Not Found"),
        Error::ProviderCall("provider returned HTTP 404 Not Found".to_string())
    );
}
