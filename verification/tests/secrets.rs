use judge::{
    EnvironmentSecretResolver, Error, ProviderAuthorization, ProviderSecretResolver,
    ResolvedProviderAuthorization, SecretSourceReference, SessionAuthorizationSourceReference,
    TransientBearerSecret,
};

struct Vault;

impl ProviderSecretResolver for Vault {
    fn resolve(&self, reference: &SecretSourceReference) -> Result<TransientBearerSecret, Error> {
        if reference.as_str() == "vault:judge" {
            TransientBearerSecret::new("s3cr3t")
        } else {
            Err(Error::SecretSourceUnavailable(reference.as_str().to_string()))
        }
    }
}

#[test]
fn secret_debug_is_redacted() {
    let reference = SecretSourceReference::unchecked("env:API_KEY");
    let authorization = ProviderAuthorization::bearer_secret_source(reference.clone());
    let resolved = ResolvedProviderAuthorization::bearer_secret(
        TransientBearerSecret::new("secret").unwrap(),
    );

    assert_eq!(
        authorization.debug_text(),
        "BearerSecretSource(SecretSourceReference(<redacted>))"
    );
    assert_eq!(resolved.debug_text(), "BearerSecret(<redacted>)");
    assert_eq!(reference.debug_text(), "SecretSourceReference(<redacted>)");
}

#[test]
fn every_debug_text_withholds_values() {
    let session = SessionAuthorizationSourceReference::new("codex-login").unwrap();
    assert_eq!(session.debug_text(), "SessionAuthorizationSourceReference(<redacted>)");
    assert_eq!(
        TransientBearerSecret::new("hunter2").unwrap().debug_text(),
        "TransientBearerSecret(<redacted>)"
    );
    assert_eq!(ProviderAuthorization::no_secret().debug_text(), "NoSecret");
    assert_eq!(
        ProviderAuthorization::external_session(session.clone()).debug_text(),
        "ExternalSession(SessionAuthorizationSourceReference(<redacted>))"
    );
    assert_eq!(ResolvedProviderAuthorization::no_secret().debug_text(), "NoSecret");
    assert_eq!(
        ResolvedProviderAuthorization::external_session(session).debug_text(),
        "ExternalSession(<redacted>)"
    );
}

#[test]
fn references_and_secrets_refuse_empty_values() {
    assert!(SecretSourceReference::new("") == Err(Error::EmptyValue));
    assert!(SessionAuthorizationSourceReference::new("") == Err(Error::EmptyValue));
    assert!(TransientBearerSecret::new("") == Err(Error::EmptyValue));
    assert_eq!(SecretSourceReference::new("env:A").unwrap().as_str(), "env:A");
    assert_eq!(SecretSourceReference::unchecked("").as_str(), "");
    assert_eq!(SessionAuthorizationSourceReference::new("s").unwrap().as_str(), "s");
    assert_eq!(TransientBearerSecret::new("t").unwrap().as_str(), "t");
}

#[test]
fn resolve_consults_the_resolver_only_for_bearer_sources() {
    assert!(
        ProviderAuthorization::no_secret().resolve(&Vault).unwrap()
            == ResolvedProviderAuthorization::no_secret()
    );
    let session = SessionAuthorizationSourceReference::new("codex-login").unwrap();
    assert!(
        ProviderAuthorization::external_session(session.clone())
            .resolve(&Vault)
            .unwrap()
            == ResolvedProviderAuthorization::external_session(session)
    );
    let bearer = ProviderAuthorization::bearer_secret_source(SecretSourceReference::unchecked(
        "vault:judge",
    ))
    .resolve(&Vault)
    .unwrap();
    assert_eq!(bearer.bearer_secret_value(), Some("s3cr3t"));
    let missing = ProviderAuthorization::bearer_secret_source(SecretSourceReference::unchecked(
        "vault:other",
    ))
    .resolve(&Vault);
    assert!(missing == Err(Error::SecretSourceUnavailable("vault:other".to_string())));
}

#[test]
fn secret_resolution_becomes_a_bearer_authorization() {
    let secret = TransientBearerSecret::new("abc").unwrap();
    let resolved = ResolvedProviderAuthorization::from_secret_resolution(Ok(secret.clone())).unwrap();
    assert!(resolved == ResolvedProviderAuthorization::bearer_secret(secret));
    assert!(
        ResolvedProviderAuthorization::from_secret_resolution(Err(Error::EmptyValue))
            == Err(Error::EmptyValue)
    );
}

#[test]
fn bearer_value_is_present_only_for_bearer_secrets() {
    let secret = TransientBearerSecret::new("abc").unwrap();
    assert_eq!(
        ResolvedProviderAuthorization::bearer_secret(secret).bearer_secret_value(),
        Some("abc")
    );
    assert_eq!(ResolvedProviderAuthorization::no_secret().bearer_secret_value(), None);
    let session = SessionAuthorizationSourceReference::new("codex-login").unwrap();
    assert_eq!(
        ResolvedProviderAuthorization::external_session(session).bearer_secret_value(),
        None
    );
}

#[test]
fn environment_references_name_a_variable() {
    let resolver = EnvironmentSecretResolver;
    assert_eq!(
        resolver.variable_name(&SecretSourceReference::unchecked("env:API_KEY")),
        Ok("API_KEY".to_string())
    );
    assert_eq!(
        resolver.variable_name(&SecretSourceReference::unchecked("env:")),
        Err(Error::EmptyValue)
    );
    assert_eq!(
        resolver.variable_name(&SecretSourceReference::unchecked("vault:x")),
        Err(Error::SecretSourceUnsupported("vault:x".to_string()))
    );
    assert_eq!(
        resolver.variable_name(&SecretSourceReference::unchecked("en")),
        Err(Error::SecretSourceUnsupported("en".to_string()))
    );
    assert_eq!(
        resolver.variable_name(&SecretSourceReference::unchecked("env:ключ")),
        Ok("ключ".to_string())
    );
}

#[test]
fn environment_values_resolve_to_secrets() {
    let resolver = EnvironmentSecretResolver;
    let reference = SecretSourceReference::unchecked("env:API_KEY");
    assert!(
        resolver.secret_from_variable(&reference, None)
            == Err(Error::SecretSourceUnavailable("env:API_KEY".to_string()))
    );
    assert!(resolver.secret_from_variable(&reference, Some(String::new())) == Err(Error::EmptyValue));
    assert_eq!(
        resolver
            .secret_from_variable(&reference, Some("token".to_string()))
            .unwrap()
            .as_str(),
        "token"
    );
}
