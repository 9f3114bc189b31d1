use judge::{
    EndpointUrl, Error, FixtureProviderClient, FormatFailure, JudgeDiagnostic, ProviderCallReply,
    ProviderCallRequest, ProviderCallTimeout, ProviderClient, ProviderMessage, ProviderMessageRole,
    ProviderModelName, ProviderName, ReasoningEffort, ResolvedProviderAuthorization,
};

#[test]
fn fixture_provider_returns_configured_text() {
    let client = FixtureProviderClient::from_text("(Accept None)");
    let request = ProviderCallRequest::new(
        ProviderName::unchecked("fixture"),
        ProviderModelName::unchecked("fixture"),
        None,
        ResolvedProviderAuthorization::no_secret(),
        vec![ProviderMessage::user("judge this")],
    );

    let reply = client.call(request).unwrap();

    assert_eq!(reply.output_text(), "(Accept None)");
}

#[test]
fn boxed_fixture_answers_through_the_trait_object() {
    let reply = ProviderCallReply::new("Accept", vec![JudgeDiagnostic::new("slow")]);
    let client: Box<dyn ProviderClient> = Box::new(FixtureProviderClient::new(reply.clone()));
    let request = ProviderCallRequest::new(
        ProviderName::unchecked("fixture"),
        ProviderModelName::unchecked("m"),
        Some(ReasoningEffort::High),
        ResolvedProviderAuthorization::no_secret(),
        Vec::new(),
    );
    let answered = client.call(request.clone()).unwrap();
    assert_eq!(answered, reply);
    assert_eq!(answered.diagnostics()[0].message(), "slow");
    assert_eq!(client.call(request).unwrap(), reply);
}

#[test]
fn names_refuse_empty_values() {
    assert_eq!(ProviderName::new(""), Err(Error::EmptyValue));
    assert_eq!(ProviderModelName::new(""), Err(Error::EmptyValue));
    assert_eq!(EndpointUrl::new(""), Err(Error::EmptyValue));
    assert_eq!(ProviderName::new("openai-codex").unwrap().as_str(), "openai-codex");
    assert_eq!(ProviderModelName::new("gpt-5.6-terra").unwrap().as_str(), "gpt-5.6-terra");
    assert_eq!(EndpointUrl::new("http://localhost:8080").unwrap().as_str(), "http://localhost:8080");
    assert_eq!(ProviderName::unchecked("").as_str(), "");
    assert_eq!(ProviderModelName::unchecked("").as_str(), "");
}

#[test]
fn reasoning_effort_spellings() {
    assert_eq!(ReasoningEffort::Low.as_str(), "low");
    assert_eq!(ReasoningEffort::Medium.as_str(), "medium");
    assert_eq!(ReasoningEffort::High.as_str(), "high");
}

#[test]
fn timeout_keeps_its_milliseconds() {
    assert_eq!(ProviderCallTimeout::from_milliseconds(0), Err(Error::EmptyValue));
    let timeout = ProviderCallTimeout::from_milliseconds(2500).unwrap();
    assert_eq!(timeout.duration(), std::time::Duration::from_millis(2500));
}

#[test]
fn messages_keep_role_and_text() {
    let system = ProviderMessage::system("rules");
    let user = ProviderMessage::user("question");
    let assistant = ProviderMessage::assistant("answer");
    assert_eq!(system.role(), ProviderMessageRole::System);
    assert_eq!(user.role(), ProviderMessageRole::User);
    assert_eq!(assistant.role(), ProviderMessageRole::Assistant);
    assert_eq!(system.text(), "rules");
    assert_eq!(ProviderMessage::new(ProviderMessageRole::User, "question"), user);
    assert_eq!(assistant.clone(), assistant);
}

#[test]
fn request_getters_return_what_was_given() {
    let request = ProviderCallRequest::new(
        ProviderName::unchecked("p"),
        ProviderModelName::unchecked("m"),
        Some(ReasoningEffort::Low),
        ResolvedProviderAuthorization::no_secret(),
        vec![ProviderMessage::system("a"), ProviderMessage::user("b")],
    );
    assert_eq!(request.provider_name().as_str(), "p");
    assert_eq!(request.model_name().as_str(), "m");
    assert_eq!(request.reasoning_effort(), Some(ReasoningEffort::Low));
    assert!(request.authorization() == &ResolvedProviderAuthorization::no_secret());
    assert_eq!(request.messages().len(), 2);
    assert_eq!(request.messages()[1].text(), "b");
    assert!(request.clone() == request);
}

#[test]
fn diagnostics_and_format_failures_keep_their_text() {
    let diagnostic = JudgeDiagnostic::new("retry advised");
    assert_eq!(diagnostic.message(), "retry advised");
    let failure = FormatFailure::new("(Accept Option)", "not-a-nota-verdict\n");
    assert_eq!(failure.expected_shape(), "(Accept Option)");
    assert_eq!(failure.received_text(), "not-a-nota-verdict\n");
    assert_eq!(failure.clone(), failure);
    let reply = ProviderCallReply::new("text", Vec::new());
    assert_eq!(reply.output_text(), "text");
    assert!(reply.diagnostics().is_empty());
}

#[test]
fn error_messages_name_the_failure() {
    assert_eq!(Error::EmptyValue.message(), "judge value is empty");
    assert_eq!(
        Error::ProviderCall("boom".to_string()).message(),
        "provider call failed: boom"
    );
    assert_eq!(
        Error::SecretSourceUnsupported("vault:x".to_string()).message(),
        "secret source is unsupported: vault:x"
    );
    assert_eq!(
        Error::SecretSourceUnavailable("env:X".to_string()).message(),
        "secret source is unavailable: env:X"
    );
    assert_eq!(Error::ProviderCommandUnavailable.message(), "provider command is unavailable");
    assert_eq!(Error::ProviderCommandTimedOut.message(), "provider command exceeded its deadline");
    assert_eq!(Error::ProviderCommandExited.message(), "provider command exited unsuccessfully");
    assert_eq!(Error::ProviderCommandEmptyOutput.message(), "provider command returned empty output");
    assert_eq!(
        Error::ProviderCommandNonUtf8Output.message(),
        "provider command returned non-UTF-8 output"
    );
    assert_eq!(
        Error::ProviderProcessGroupTeardownFailed.message(),
        "provider process group could not be terminated safely"
    );
    assert_eq!(
        Error::ProviderAuthorizationUnsupported.message(),
        "provider authorization is not supported by this provider"
    );
    assert_eq!(
        Error::ProviderAuthorizationReferenceUnsupported.message(),
        "provider authorization reference is not supported"
    );
    assert_eq!(
        Error::ProviderResponse("missing first choice".to_string()).message(),
        "provider endpoint returned malformed response: missing first choice"
    );
}

struct Echo {
    calls: std::sync::atomic::AtomicUsize,
}

impl ProviderClient for Echo {
    fn call(&self, request: ProviderCallRequest) -> Result<ProviderCallReply, Error> {
        self.calls.fetch_add(1, std::sync::atomic::Ordering::SeqCst);
        if request.messages().is_empty() {
            return Err(Error::EmptyValue);
        }
        Ok(ProviderCallReply::new(request.model_name().as_str(), Vec::new()))
    }
}

#[test]
fn boxed_client_forwards_each_call_once_and_unchanged() {
    let boxed: Box<Echo> = Box::new(Echo { calls: std::sync::atomic::AtomicUsize::new(0) });
    let request = ProviderCallRequest::new(
        ProviderName::unchecked("p"),
        ProviderModelName::unchecked("echoed-model"),
        None,
        ResolvedProviderAuthorization::no_secret(),
        vec![ProviderMessage::user("x")],
    );
    assert_eq!(boxed.call(request.clone()).unwrap().output_text(), "echoed-model");
    assert_eq!(boxed.calls.load(std::sync::atomic::Ordering::SeqCst), 1);
    let empty = ProviderCallRequest::new(
        ProviderName::unchecked("p"),
        ProviderModelName::unchecked("m"),
        None,
        ResolvedProviderAuthorization::no_secret(),
        Vec::new(),
    );
    let unsized_box: Box<dyn ProviderClient> = boxed;
    assert_eq!(unsized_box.call(empty), Err(Error::EmptyValue));
    assert_eq!(unsized_box.call(request).unwrap().output_text(), "echoed-model");
}
