use vstd::prelude::*;

use crate::authorization::{ResolvedAuthorizationView, ResolvedProviderAuthorization};
use crate::names::{ProviderModelName, ProviderName, ReasoningEffort};

verus! {

/// Who speaks a message in a provider conversation.
#[derive(Clone, Copy, Debug, PartialEq, Eq, Structural)]
pub enum ProviderMessageRole {
    System,
    User,
    Assistant,
}

/// One message of a provider conversation.
#[derive(Debug, PartialEq, Eq)]
pub struct ProviderMessage {
    role: ProviderMessageRole,
    text: String,
}

impl View for ProviderMessage {
    type V = (ProviderMessageRole, Seq<char>);

    closed spec fn view(&self) -> (ProviderMessageRole, Seq<char>) {
        (self.role, self.text@)
    }
}

/// The abstract form of a list of messages.
pub open spec fn messages_view(messages: Seq<ProviderMessage>) -> Seq<(ProviderMessageRole, Seq<char>)> {
    messages.map_values(|message: ProviderMessage| message@)
}

impl Clone for ProviderMessage {
    fn clone(&self) -> (copy: Self)
        ensures
            copy == *self,
    {
        ProviderMessage { role: self.role, text: self.text.clone() }
    }
}

impl ProviderMessage {
    pub fn system(text: &str) -> (message: Self)
        ensures
            message@ == (ProviderMessageRole::System, text@),
    {
        Self::new(ProviderMessageRole::System, text)
    }

    pub fn user(text: &str) -> (message: Self)
        ensures
            message@ == (ProviderMessageRole::User, text@),
    {
        Self::new(ProviderMessageRole::User, text)
    }

    pub fn assistant(text: &str) -> (message: Self)
        ensures
            message@ == (ProviderMessageRole::Assistant, text@),
    {
        Self::new(ProviderMessageRole::Assistant, text)
    }

    pub fn new(role: ProviderMessageRole, text: &str) -> (message: Self)
        ensures
            message@ == (role, text@),
    {
        ProviderMessage { role, text: text.to_owned() }
    }

    pub fn role(&self) -> (role: ProviderMessageRole)
        ensures
            role == self@.0,
    {
        self.role
    }

    pub fn text(&self) -> (text: &str)
        ensures
            text@ == self@.1,
    {
        self.text.as_str()
    }
}

/// A note a provider call leaves for the adapter.
#[derive(Debug, PartialEq, Eq)]
pub struct JudgeDiagnostic {
    message: String,
}

impl View for JudgeDiagnostic {
    type V = Seq<char>;

    closed spec fn view(&self) -> Seq<char> {
        self.message@
    }
}

impl Clone for JudgeDiagnostic {
    fn clone(&self) -> (copy: Self)
        ensures
            copy == *self,
    {
        JudgeDiagnostic { message: self.message.clone() }
    }
}

impl JudgeDiagnostic {
    pub fn new(message: &str) -> (diagnostic: Self)
        ensures
            diagnostic@ == message@,
    {
        JudgeDiagnostic { message: message.to_owned() }
    }

    pub fn message(&self) -> (message: &str)
        ensures
            message@ == self@,
    {
        self.message.as_str()
    }
}

/// The abstract form of a list of diagnostics.
pub open spec fn diagnostics_view(diagnostics: Seq<JudgeDiagnostic>) -> Seq<Seq<char>> {
    diagnostics.map_values(|diagnostic: JudgeDiagnostic| diagnostic@)
}

/// What a provider call answers: its text, kept verbatim, and any diagnostics.
#[derive(Debug, PartialEq, Eq)]
pub struct ProviderCallReply {
    output_text: String,
    diagnostics: Vec<JudgeDiagnostic>,
}

impl View for ProviderCallReply {
    type V = (Seq<char>, Seq<Seq<char>>);

    closed spec fn view(&self) -> (Seq<char>, Seq<Seq<char>>) {
        (self.output_text@, diagnostics_view(self.diagnostics@))
    }
}

impl Clone for ProviderCallReply {
    fn clone(&self) -> (copy: Self)
        ensures
            copy@ == self@,
    {
        let mut diagnostics: Vec<JudgeDiagnostic> = Vec::new();
        let mut index: usize = 0;
        while index < self.diagnostics.len()
            invariant
                index <= self.diagnostics@.len(),
                diagnostics@ == self.diagnostics@.take(index as int),
            decreases self.diagnostics@.len() - index,
        {
            diagnostics.push(self.diagnostics[index].clone());
            assert(self.diagnostics@.take(index + 1) =~= self.diagnostics@.take(index as int).push(
                self.diagnostics@[index as int],
            ));
            index = index + 1;
        }
        assert(self.diagnostics@.take(index as int) =~= self.diagnostics@);
        ProviderCallReply { output_text: self.output_text.clone(), diagnostics }
    }
}

impl ProviderCallReply {
    pub fn new(output_text: &str, diagnostics: Vec<JudgeDiagnostic>) -> (reply: Self)
        ensures
            reply@ == (output_text@, diagnostics_view(diagnostics@)),
    {
        ProviderCallReply { output_text: output_text.to_owned(), diagnostics }
    }

    pub fn output_text(&self) -> (text: &str)
        ensures
            text@ == self@.0,
    {
        self.output_text.as_str()
    }

    pub fn diagnostics(&self) -> (diagnostics: &[JudgeDiagnostic])
        ensures
            diagnostics_view(diagnostics@) == self@.1,
    {
        self.diagnostics.as_slice()
    }
}

/// A shape that the provider's text did not take: what was expected, and the
/// text that came instead.
#[derive(Debug, PartialEq, Eq)]
pub struct FormatFailure {
    expected_shape: String,
    received_text: String,
}

impl View for FormatFailure {
    type V = (Seq<char>, Seq<char>);

    closed spec fn view(&self) -> (Seq<char>, Seq<char>) {
        (self.expected_shape@, self.received_text@)
    }
}

impl Clone for FormatFailure {
    fn clone(&self) -> (copy: Self)
        ensures
            copy == *self,
    {
        FormatFailure { expected_shape: self.expected_shape.clone(), received_text: self.received_text.clone() }
    }
}

impl FormatFailure {
    pub fn new(expected_shape: &str, received_text: &str) -> (failure: Self)
        ensures
            failure@ == (expected_shape@, received_text@),
    {
        FormatFailure { expected_shape: expected_shape.to_owned(), received_text: received_text.to_owned() }
    }

    pub fn expected_shape(&self) -> (shape: &str)
        ensures
            shape@ == self@.0,
    {
        self.expected_shape.as_str()
    }

    pub fn received_text(&self) -> (text: &str)
        ensures
            text@ == self@.1,
    {
        self.received_text.as_str()
    }
}

/// Everything a provider is handed for one call.
#[derive(PartialEq, Eq)]
pub struct ProviderCallRequest {
    provider_name: ProviderName,
    model_name: ProviderModelName,
    reasoning_effort: Option<ReasoningEffort>,
    authorization: ResolvedProviderAuthorization,
    messages: Vec<ProviderMessage>,
}

/// The abstract form of a provider call request.
pub struct CallRequestView {
    pub provider_name: Seq<char>,
    pub model_name: Seq<char>,
    pub reasoning_effort: Option<ReasoningEffort>,
    pub authorization: ResolvedAuthorizationView,
    pub messages: Seq<(ProviderMessageRole, Seq<char>)>,
}

impl View for ProviderCallRequest {
    type V = CallRequestView;

    closed spec fn view(&self) -> CallRequestView {
        CallRequestView {
            provider_name: self.provider_name@,
            model_name: self.model_name@,
            reasoning_effort: self.reasoning_effort,
            authorization: self.authorization@,
            messages: messages_view(self.messages@),
        }
    }
}

impl Clone for ProviderCallRequest {
    fn clone(&self) -> (copy: Self)
        ensures
            copy@ == self@,
    {
        let mut messages: Vec<ProviderMessage> = Vec::new();
        let mut index: usize = 0;
        while index < self.messages.len()
            invariant
                index <= self.messages@.len(),
                messages@ == self.messages@.take(index as int),
            decreases self.messages@.len() - index,
        {
            messages.push(self.messages[index].clone());
            assert(self.messages@.take(index + 1) =~= self.messages@.take(index as int).push(
                self.messages@[index as int],
            ));
            index = index + 1;
        }
        assert(self.messages@.take(index as int) =~= self.messages@);
        ProviderCallRequest {
            provider_name: self.provider_name.clone(),
            model_name: self.model_name.clone(),
            reasoning_effort: self.reasoning_effort,
            authorization: self.authorization.clone(),
            messages,
        }
    }
}

impl ProviderCallRequest {
    pub fn new(
        provider_name: ProviderName,
        model_name: ProviderModelName,
        reasoning_effort: Option<ReasoningEffort>,
        authorization: ResolvedProviderAuthorization,
        messages: Vec<ProviderMessage>,
    ) -> (request: Self)
        ensures
            request@ == (CallRequestView {
                provider_name: provider_name@,
                model_name: model_name@,
                reasoning_effort,
                authorization: authorization@,
                messages: messages_view(messages@),
            }),
    {
        ProviderCallRequest { provider_name, model_name, reasoning_effort, authorization, messages }
    }

    pub fn provider_name(&self) -> (name: &ProviderName)
        ensures
            name@ == self@.provider_name,
    {
        &self.provider_name
    }

    pub fn model_name(&self) -> (name: &ProviderModelName)
        ensures
            name@ == self@.model_name,
    {
        &self.model_name
    }

    pub fn reasoning_effort(&self) -> (effort: Option<ReasoningEffort>)
        ensures
            effort == self@.reasoning_effort,
    {
        self.reasoning_effort
    }

    pub fn authorization(&self) -> (authorization: &ResolvedProviderAuthorization)
        ensures
            authorization@ == self@.authorization,
    {
        &self.authorization
    }

    pub fn messages(&self) -> (messages: &[ProviderMessage])
        ensures
            messages_view(messages@) == self@.messages,
    {
        self.messages.as_slice()
    }
}

} // verus!
