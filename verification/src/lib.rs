//! Shared mechanics for model-backed judge adapters: provider and model
//! names, references to externally owned secret sources, provider call
//! records, and the decisions that drive a bounded provider child process.
//!
//! The crate owns no domain semantics. Provider calls are single attempts;
//! adapters decide whether a domain-specific retry is safe.

pub mod authorization;
pub mod child;
pub mod client;
pub mod codex;
pub mod compatible;
pub mod error;
pub mod message;
pub mod names;
pub mod text;

pub use authorization::{
    EnvironmentSecretResolver, ProviderAuthorization, ProviderSecretResolver,
    ResolvedProviderAuthorization, SecretSourceReference, SessionAuthorizationSourceReference,
    TransientBearerSecret,
};
pub use child::{
    process_group_id, ChildObservation, ChildOutput, GroupSignal, SupervisionDirective,
    SupervisionPhase, GRACE_MILLISECONDS, POLL_PAUSE_MILLISECONDS,
};
pub use client::{FixtureProviderClient, ProviderClient};
pub use codex::{
    CodexCallDirective, CodexCallEvent, CodexCallPhase, OpenAiCodexInvocation,
    OpenAiCodexProviderClient,
};
pub use compatible::{
    chat_completions_endpoint, http_status_error, OpenAiCompatibleChoice,
    OpenAiCompatibleChoiceMessage, OpenAiCompatibleMessage, OpenAiCompatibleRequest,
    OpenAiCompatibleResponse,
};
pub use error::Error;
pub use message::{
    FormatFailure, JudgeDiagnostic, ProviderCallReply, ProviderCallRequest, ProviderMessage,
    ProviderMessageRole,
};
pub use names::{EndpointUrl, ProviderCallTimeout, ProviderModelName, ProviderName, ReasoningEffort};
