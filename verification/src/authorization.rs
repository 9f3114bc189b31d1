use vstd::prelude::*;

use crate::error::Error;

verus! {

/// A reference to an externally owned secret source, such as `env:API_KEY`.
/// It names where a secret lives, never the secret itself.
#[derive(PartialEq, Eq)]
pub struct SecretSourceReference(String);

impl View for SecretSourceReference {
    type V = Seq<char>;

    closed spec fn view(&self) -> Seq<char> {
        self.0@
    }
}

impl Clone for SecretSourceReference {
    fn clone(&self) -> (copy: Self)
        ensures
            copy == *self,
    {
        SecretSourceReference(self.0.clone())
    }
}

/// The debug rendering of a secret source reference; the reference is withheld.
pub open spec fn secret_source_debug_text() -> Seq<char> {
    "SecretSourceReference(<redacted>)"@
}

impl SecretSourceReference {
    /// Accepts any non-empty reference.
    pub fn new(value: &str) -> (result: Result<Self, Error>)
        ensures
            value@.len() == 0 ==> result == Err::<Self, Error>(Error::EmptyValue),
            value@.len() > 0 ==> (result matches Ok(reference) && reference@ == value@),
    {
        if value.is_empty() {
            return Err(Error::EmptyValue);
        }
        Ok(SecretSourceReference(value.to_owned()))
    }

    /// Takes the reference as given, empty or not.
    pub fn unchecked(value: &str) -> (reference: Self)
        ensures
            reference@ == value@,
    {
        SecretSourceReference(value.to_owned())
    }

    pub fn as_str(&self) -> (text: &str)
        ensures
            text@ == self@,
    {
        self.0.as_str()
    }

    /// The text that stands for this reference in debug output.
    pub fn debug_text(&self) -> (text: String)
        ensures
            text@ == secret_source_debug_text(),
    {
        String::from_str("SecretSourceReference(<redacted>)")
    }
}

/// A reference to an externally owned, ambient provider session such as
/// `codex-login`; never empty.
#[derive(PartialEq, Eq)]
pub struct SessionAuthorizationSourceReference(String);

impl View for SessionAuthorizationSourceReference {
    type V = Seq<char>;

    closed spec fn view(&self) -> Seq<char> {
        self.0@
    }
}

impl Clone for SessionAuthorizationSourceReference {
    fn clone(&self) -> (copy: Self)
        ensures
            copy == *self,
    {
        proof { use_type_invariant(self); }
        SessionAuthorizationSourceReference(self.0.clone())
    }
}

/// The debug rendering of a session reference; the reference is withheld.
pub open spec fn session_source_debug_text() -> Seq<char> {
    "SessionAuthorizationSourceReference(<redacted>)"@
}

impl SessionAuthorizationSourceReference {
    #[verifier::type_invariant]
    closed spec fn is_present(self) -> bool {
        self.0@.len() > 0
    }

    /// Accepts any non-empty reference.
    pub fn new(value: &str) -> (result: Result<Self, Error>)
        ensures
            value@.len() == 0 ==> result == Err::<Self, Error>(Error::EmptyValue),
            value@.len() > 0 ==> (result matches Ok(reference) && reference@ == value@),
    {
        if value.is_empty() {
            return Err(Error::EmptyValue);
        }
        Ok(SessionAuthorizationSourceReference(value.to_owned()))
    }

    pub fn as_str(&self) -> (text: &str)
        ensures
            text@ == self@,
            text@.len() > 0,
    {
        proof { use_type_invariant(self); }
        self.0.as_str()
    }

    /// The text that stands for this reference in debug output.
    pub fn debug_text(&self) -> (text: String)
        ensures
            text@ == session_source_debug_text(),
    {
        String::from_str("SessionAuthorizationSourceReference(<redacted>)")
    }
}

/// A bearer secret held only for the span of one provider call; never empty.
#[derive(PartialEq, Eq)]
pub struct TransientBearerSecret(String);

impl View for TransientBearerSecret {
    type V = Seq<char>;

    closed spec fn view(&self) -> Seq<char> {
        self.0@
    }
}

impl Clone for TransientBearerSecret {
    fn clone(&self) -> (copy: Self)
        ensures
            copy == *self,
    {
        proof { use_type_invariant(self); }
        TransientBearerSecret(self.0.clone())
    }
}

/// The debug rendering of a bearer secret; the secret is withheld.
pub open spec fn bearer_secret_debug_text() -> Seq<char> {
    "TransientBearerSecret(<redacted>)"@
}

impl TransientBearerSecret {
    #[verifier::type_invariant]
    closed spec fn is_present(self) -> bool {
        self.0@.len() > 0
    }

    /// Accepts any non-empty secret.
    pub fn new(value: &str) -> (result: Result<Self, Error>)
        ensures
            value@.len() == 0 ==> result == Err::<Self, Error>(Error::EmptyValue),
            value@.len() > 0 ==> (result matches Ok(secret) && secret@ == value@),
    {
        if value.is_empty() {
            return Err(Error::EmptyValue);
        }
        Ok(TransientBearerSecret(value.to_owned()))
    }

    pub fn as_str(&self) -> (text: &str)
        ensures
            text@ == self@,
            text@.len() > 0,
    {
        proof { use_type_invariant(self); }
        self.0.as_str()
    }

    /// The text that stands for this secret in debug output.
    pub fn debug_text(&self) -> (text: String)
        ensures
            text@ == bearer_secret_debug_text(),
    {
        String::from_str("TransientBearerSecret(<redacted>)")
    }
}

} // verus!

verus! {

/// How a provider call is to be authorized, by reference only.
#[derive(PartialEq, Eq)]
pub enum ProviderAuthorization {
    NoSecret,
    BearerSecretSource(SecretSourceReference),
    ExternalSession(SessionAuthorizationSourceReference),
}

/// The abstract form of a provider authorization: its variant and the text of
/// the reference it carries.
pub enum AuthorizationSourceView {
    NoSecret,
    BearerSecretSource(Seq<char>),
    ExternalSession(Seq<char>),
}

impl View for ProviderAuthorization {
    type V = AuthorizationSourceView;

    open spec fn view(&self) -> AuthorizationSourceView {
        match self {
            ProviderAuthorization::NoSecret => AuthorizationSourceView::NoSecret,
            ProviderAuthorization::BearerSecretSource(reference) => AuthorizationSourceView::BearerSecretSource(reference@),
            ProviderAuthorization::ExternalSession(reference) => AuthorizationSourceView::ExternalSession(reference@),
        }
    }
}

/// The debug rendering of a provider authorization: the variant, with every
/// reference withheld.
pub open spec fn authorization_debug_text(authorization: AuthorizationSourceView) -> Seq<char> {
    match authorization {
        AuthorizationSourceView::NoSecret => "NoSecret"@,
        AuthorizationSourceView::BearerSecretSource(_) => "BearerSecretSource("@ + secret_source_debug_text() + ")"@,
        AuthorizationSourceView::ExternalSession(_) => "ExternalSession("@ + session_source_debug_text() + ")"@,
    }
}

impl Clone for ProviderAuthorization {
    fn clone(&self) -> (copy: Self)
        ensures
            copy == *self,
    {
        match self {
            ProviderAuthorization::NoSecret => ProviderAuthorization::NoSecret,
            ProviderAuthorization::BearerSecretSource(reference) => ProviderAuthorization::BearerSecretSource(reference.clone()),
            ProviderAuthorization::ExternalSession(reference) => ProviderAuthorization::ExternalSession(reference.clone()),
        }
    }
}

/// Debug output never depends on the text of a reference: two authorizations
/// of the same variant render alike.
pub proof fn lemma_authorization_debug_is_redacted(first: AuthorizationSourceView, second: AuthorizationSourceView)
    requires
        first is NoSecret <==> second is NoSecret,
        first is BearerSecretSource <==> second is BearerSecretSource,
        first is ExternalSession <==> second is ExternalSession,
    ensures
        authorization_debug_text(first) == authorization_debug_text(second),
{
}

/// An authorization after its secret source has been consulted.
#[derive(PartialEq, Eq)]
pub enum ResolvedProviderAuthorization {
    NoSecret,
    BearerSecret(TransientBearerSecret),
    ExternalSession(SessionAuthorizationSourceReference),
}

/// The abstract form of a resolved authorization.
pub enum ResolvedAuthorizationView {
    NoSecret,
    BearerSecret(Seq<char>),
    ExternalSession(Seq<char>),
}

impl View for ResolvedProviderAuthorization {
    type V = ResolvedAuthorizationView;

    open spec fn view(&self) -> ResolvedAuthorizationView {
        match self {
            ResolvedProviderAuthorization::NoSecret => ResolvedAuthorizationView::NoSecret,
            ResolvedProviderAuthorization::BearerSecret(secret) => ResolvedAuthorizationView::BearerSecret(secret@),
            ResolvedProviderAuthorization::ExternalSession(reference) => ResolvedAuthorizationView::ExternalSession(reference@),
        }
    }
}

/// The debug rendering of a resolved authorization: the variant only.
pub open spec fn resolved_debug_text(authorization: ResolvedAuthorizationView) -> Seq<char> {
    match authorization {
        ResolvedAuthorizationView::NoSecret => "NoSecret"@,
        ResolvedAuthorizationView::BearerSecret(_) => "BearerSecret(<redacted>)"@,
        ResolvedAuthorizationView::ExternalSession(_) => "ExternalSession(<redacted>)"@,
    }
}

/// Debug output never depends on a secret or a session reference: two
/// resolved authorizations of the same variant render alike.
pub proof fn lemma_resolved_debug_is_redacted(first: ResolvedAuthorizationView, second: ResolvedAuthorizationView)
    requires
        first is NoSecret <==> second is NoSecret,
        first is BearerSecret <==> second is BearerSecret,
        first is ExternalSession <==> second is ExternalSession,
    ensures
        resolved_debug_text(first) == resolved_debug_text(second),
{
}

impl Clone for ResolvedProviderAuthorization {
    fn clone(&self) -> (copy: Self)
        ensures
            copy == *self,
    {
        match self {
            ResolvedProviderAuthorization::NoSecret => ResolvedProviderAuthorization::NoSecret,
            ResolvedProviderAuthorization::BearerSecret(secret) => ResolvedProviderAuthorization::BearerSecret(secret.clone()),
            ResolvedProviderAuthorization::ExternalSession(reference) => ResolvedProviderAuthorization::ExternalSession(reference.clone()),
        }
    }
}

/// A source of bearer secrets, implemented by adapters. What it answers for a
/// reference is its own affair: the environment, a vault, a fixture.
pub trait ProviderSecretResolver: Send + Sync {
    /// Whether `answer` is an answer this resolver may give when asked about
    /// the reference with text `reference`. A resolver that says nothing of
    /// its answers may give any answer.
    closed spec fn may_answer(&self, reference: Seq<char>, answer: Result<TransientBearerSecret, Error>) -> bool {
        true
    }

    fn resolve(&self, reference: &SecretSourceReference) -> (answer: Result<TransientBearerSecret, Error>)
        ensures
            self.may_answer(reference@, answer),
    ;
}

/// What a bearer secret source resolves to, given its resolver's answer: the
/// secret as a bearer secret, or the resolver's error unchanged.
pub open spec fn bearer_resolution(answer: Result<TransientBearerSecret, Error>) -> Result<ResolvedProviderAuthorization, Error> {
    match answer {
        Ok(secret) => Ok(ResolvedProviderAuthorization::BearerSecret(secret)),
        Err(error) => Err(error),
    }
}

impl ProviderAuthorization {
    pub fn no_secret() -> (authorization: Self)
        ensures
            authorization@ == AuthorizationSourceView::NoSecret,
    {
        ProviderAuthorization::NoSecret
    }

    pub fn bearer_secret_source(reference: SecretSourceReference) -> (authorization: Self)
        ensures
            authorization == ProviderAuthorization::BearerSecretSource(reference),
    {
        ProviderAuthorization::BearerSecretSource(reference)
    }

    pub fn external_session(reference: SessionAuthorizationSourceReference) -> (authorization: Self)
        ensures
            authorization == ProviderAuthorization::ExternalSession(reference),
    {
        ProviderAuthorization::ExternalSession(reference)
    }

    /// Resolves the authorization for one call. Only a bearer secret source is
    /// handed to `resolver`, which is asked about that very reference, and its
    /// answer comes back: the secret as a bearer secret, or its error
    /// unchanged. The other variants resolve to themselves.
    pub fn resolve<Resolver: ProviderSecretResolver + ?Sized>(&self, resolver: &Resolver) -> (result: Result<ResolvedProviderAuthorization, Error>)
        ensures
            self@ is NoSecret ==> (result matches Ok(resolved) && resolved@ == ResolvedAuthorizationView::NoSecret),
            self@ matches AuthorizationSourceView::ExternalSession(reference) ==> (result matches Ok(resolved)
                && resolved@ == ResolvedAuthorizationView::ExternalSession(reference)),
            self@ matches AuthorizationSourceView::BearerSecretSource(source) ==> match result {
                Ok(resolved) => resolved matches ResolvedProviderAuthorization::BearerSecret(secret)
                    && resolver.may_answer(source, Ok(secret)),
                Err(error) => resolver.may_answer(source, Err(error)),
            },
    {
        match self {
            ProviderAuthorization::NoSecret => Ok(ResolvedProviderAuthorization::NoSecret),
            ProviderAuthorization::BearerSecretSource(reference) => {
                ResolvedProviderAuthorization::from_secret_resolution(resolver.resolve(reference))
            },
            ProviderAuthorization::ExternalSession(reference) => Ok(
                ResolvedProviderAuthorization::ExternalSession(reference.clone()),
            ),
        }
    }

    /// The text that stands for this authorization in debug output.
    pub fn debug_text(&self) -> (text: String)
        ensures
            text@ == authorization_debug_text(self@),
    {
        match self {
            ProviderAuthorization::NoSecret => String::from_str("NoSecret"),
            ProviderAuthorization::BearerSecretSource(reference) => {
                let mut text = String::from_str("BearerSecretSource(");
                let inner = reference.debug_text();
                text.append(inner.as_str());
                text.append(")");
                text
            },
            ProviderAuthorization::ExternalSession(reference) => {
                let mut text = String::from_str("ExternalSession(");
                let inner = reference.debug_text();
                text.append(inner.as_str());
                text.append(")");
                text
            },
        }
    }
}

impl ResolvedProviderAuthorization {
    pub fn no_secret() -> (authorization: Self)
        ensures
            authorization@ == ResolvedAuthorizationView::NoSecret,
    {
        ResolvedProviderAuthorization::NoSecret
    }

    pub fn bearer_secret(secret: TransientBearerSecret) -> (authorization: Self)
        ensures
            authorization == ResolvedProviderAuthorization::BearerSecret(secret),
    {
        ResolvedProviderAuthorization::BearerSecret(secret)
    }

    pub fn external_session(reference: SessionAuthorizationSourceReference) -> (authorization: Self)
        ensures
            authorization == ResolvedProviderAuthorization::ExternalSession(reference),
    {
        ResolvedProviderAuthorization::ExternalSession(reference)
    }

    /// What a bearer secret source resolves to, given what its resolver
    /// answered: the secret on success, the resolver's error otherwise.
    pub fn from_secret_resolution(resolution: Result<TransientBearerSecret, Error>) -> (result: Result<Self, Error>)
        ensures
            result == bearer_resolution(resolution),
    {
        match resolution {
            Ok(secret) => Ok(ResolvedProviderAuthorization::BearerSecret(secret)),
            Err(error) => Err(error),
        }
    }

    /// The bearer secret's text, present exactly for a bearer secret.
    pub fn bearer_secret_value(&self) -> (value: Option<&str>)
        ensures
            match self@ {
                ResolvedAuthorizationView::BearerSecret(secret) => value matches Some(text) && text@ == secret,
                _ => value is None,
            },
    {
        match self {
            ResolvedProviderAuthorization::BearerSecret(secret) => Some(secret.as_str()),
            ResolvedProviderAuthorization::NoSecret => None,
            ResolvedProviderAuthorization::ExternalSession(_) => None,
        }
    }

    /// The text that stands for this authorization in debug output.
    pub fn debug_text(&self) -> (text: String)
        ensures
            text@ == resolved_debug_text(self@),
    {
        match self {
            ResolvedProviderAuthorization::NoSecret => String::from_str("NoSecret"),
            ResolvedProviderAuthorization::BearerSecret(_) => String::from_str("BearerSecret(<redacted>)"),
            ResolvedProviderAuthorization::ExternalSession(_) => String::from_str("ExternalSession(<redacted>)"),
        }
    }
}

} // verus!

verus! {

/// The prefix of a secret source reference that names an environment variable.
pub open spec fn environment_prefix() -> Seq<char> {
    "env:"@
}

/// Whether a secret source reference names an environment variable.
pub open spec fn names_environment_variable(reference: Seq<char>) -> bool {
    reference.len() >= 4 && reference.take(4) == environment_prefix()
}

/// Resolves `env:NAME` references from the process environment. The lookup
/// itself is made by the caller; these functions decide what the reference
/// names and what the looked-up value resolves to.
#[derive(Clone, Copy, Debug, Default, PartialEq, Eq)]
pub struct EnvironmentSecretResolver;

impl EnvironmentSecretResolver {
    /// The name of the environment variable that `reference` points at.
    pub fn variable_name(&self, reference: &SecretSourceReference) -> (result: Result<String, Error>)
        ensures
            !names_environment_variable(reference@) ==> (result matches Err(Error::SecretSourceUnsupported(text))
                && text@ == reference@),
            names_environment_variable(reference@) && reference@.len() == 4 ==> result == Err::<String, Error>(
                Error::EmptyValue,
            ),
            names_environment_variable(reference@) && reference@.len() > 4 ==> (result matches Ok(name) && name@
                == reference@.skip(4)),
    {
        proof { reveal_strlit("env:"); }
        let text = reference.as_str();
        let length = text.unicode_len();
        if length >= 4 && text.get_char(0) == 'e' && text.get_char(1) == 'n' && text.get_char(2) == 'v'
            && text.get_char(3) == ':' {
            assert(text@.take(4) =~= environment_prefix());
            if length == 4 {
                return Err(Error::EmptyValue);
            }
            let name = text.substring_char(4, length);
            assert(name@ =~= text@.skip(4));
            Ok(name.to_owned())
        } else {
            assert(!(text@.len() >= 4 && text@.take(4) == environment_prefix())) by {
                if text@.len() >= 4 && text@.take(4) == environment_prefix() {
                    assert(text@[0] == text@.take(4)[0]);
                    assert(text@[1] == text@.take(4)[1]);
                    assert(text@[2] == text@.take(4)[2]);
                    assert(text@[3] == text@.take(4)[3]);
                }
            }
            Err(Error::SecretSourceUnsupported(text.to_owned()))
        }
    }

    /// What `reference` resolves to, given the value its variable held at
    /// lookup: absent (or not Unicode) is unavailable, empty is refused.
    pub fn secret_from_variable(&self, reference: &SecretSourceReference, lookup: Option<String>) -> (result: Result<TransientBearerSecret, Error>)
        ensures
            lookup is None ==> (result matches Err(Error::SecretSourceUnavailable(text)) && text@ == reference@),
            lookup matches Some(found) ==> if found@.len() == 0 {
                result == Err::<TransientBearerSecret, Error>(Error::EmptyValue)
            } else {
                result matches Ok(secret) && secret@ == found@
            },
    {
        match lookup {
            None => Err(Error::SecretSourceUnavailable(reference.as_str().to_owned())),
            Some(found) => TransientBearerSecret::new(found.as_str()),
        }
    }
}

} // verus!
