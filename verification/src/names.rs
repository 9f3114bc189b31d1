use vstd::prelude::*;

use crate::error::Error;

verus! {

/// The base URL of an OpenAI-compatible endpoint; never empty.
#[derive(Debug, PartialEq, Eq)]
pub struct EndpointUrl(String);

impl View for EndpointUrl {
    type V = Seq<char>;

    closed spec fn view(&self) -> Seq<char> {
        self.0@
    }
}

impl Clone for EndpointUrl {
    fn clone(&self) -> (copy: Self)
        ensures
            copy == *self,
    {
        proof { use_type_invariant(self); }
        EndpointUrl(self.0.clone())
    }
}

impl EndpointUrl {
    #[verifier::type_invariant]
    closed spec fn is_present(self) -> bool {
        self.0@.len() > 0
    }

    /// Accepts any non-empty URL text.
    pub fn new(value: &str) -> (result: Result<Self, Error>)
        ensures
            value@.len() == 0 ==> result == Err::<Self, Error>(Error::EmptyValue),
            value@.len() > 0 ==> (result matches Ok(url) && url@ == value@),
    {
        if value.is_empty() {
            return Err(Error::EmptyValue);
        }
        Ok(EndpointUrl(value.to_owned()))
    }

    pub fn as_str(&self) -> (text: &str)
        ensures
            text@ == self@,
            text@.len() > 0,
    {
        proof { use_type_invariant(self); }
        self.0.as_str()
    }
}

} // verus!

verus! {

/// The name of a model provider, such as `openai-codex`.
#[derive(Debug, PartialEq, Eq)]
pub struct ProviderName(String);

impl View for ProviderName {
    type V = Seq<char>;

    closed spec fn view(&self) -> Seq<char> {
        self.0@
    }
}

impl Clone for ProviderName {
    fn clone(&self) -> (copy: Self)
        ensures
            copy == *self,
    {
        ProviderName(self.0.clone())
    }
}

impl ProviderName {
    /// Accepts any non-empty name.
    pub fn new(value: &str) -> (result: Result<Self, Error>)
        ensures
            value@.len() == 0 ==> result == Err::<Self, Error>(Error::EmptyValue),
            value@.len() > 0 ==> (result matches Ok(name) && name@ == value@),
    {
        if value.is_empty() {
            return Err(Error::EmptyValue);
        }
        Ok(ProviderName(value.to_owned()))
    }

    /// Takes the name as given, empty or not.
    pub fn unchecked(value: &str) -> (name: Self)
        ensures
            name@ == value@,
    {
        ProviderName(value.to_owned())
    }

    pub fn as_str(&self) -> (text: &str)
        ensures
            text@ == self@,
    {
        self.0.as_str()
    }
}

/// The name of a model offered by a provider.
#[derive(Debug, PartialEq, Eq)]
pub struct ProviderModelName(String);

impl View for ProviderModelName {
    type V = Seq<char>;

    closed spec fn view(&self) -> Seq<char> {
        self.0@
    }
}

impl Clone for ProviderModelName {
    fn clone(&self) -> (copy: Self)
        ensures
            copy == *self,
    {
        ProviderModelName(self.0.clone())
    }
}

impl ProviderModelName {
    /// Accepts any non-empty name.
    pub fn new(value: &str) -> (result: Result<Self, Error>)
        ensures
            value@.len() == 0 ==> result == Err::<Self, Error>(Error::EmptyValue),
            value@.len() > 0 ==> (result matches Ok(name) && name@ == value@),
    {
        if value.is_empty() {
            return Err(Error::EmptyValue);
        }
        Ok(ProviderModelName(value.to_owned()))
    }

    /// Takes the name as given, empty or not.
    pub fn unchecked(value: &str) -> (name: Self)
        ensures
            name@ == value@,
    {
        ProviderModelName(value.to_owned())
    }

    pub fn as_str(&self) -> (text: &str)
        ensures
            text@ == self@,
    {
        self.0.as_str()
    }
}

/// How much reasoning a provider is asked to spend.
#[derive(Clone, Copy, Debug, PartialEq, Eq, Structural)]
pub enum ReasoningEffort {
    Low,
    Medium,
    High,
}

/// The provider's spelling of a reasoning effort.
pub open spec fn reasoning_effort_text(effort: ReasoningEffort) -> Seq<char> {
    match effort {
        ReasoningEffort::Low => "low"@,
        ReasoningEffort::Medium => "medium"@,
        ReasoningEffort::High => "high"@,
    }
}

/// Different efforts are spelled differently, so the provider can tell
/// every effort apart.
pub proof fn lemma_effort_spellings_differ(first: ReasoningEffort, second: ReasoningEffort)
    ensures
        reasoning_effort_text(first) == reasoning_effort_text(second) ==> first == second,
{
    reveal_strlit("low");
    reveal_strlit("medium");
    reveal_strlit("high");
    if first != second {
        assert(reasoning_effort_text(first)[0] != reasoning_effort_text(second)[0]
            || reasoning_effort_text(first).len() != reasoning_effort_text(second).len());
    }
}

impl ReasoningEffort {
    pub fn as_str(self) -> (text: &'static str)
        ensures
            text@ == reasoning_effort_text(self),
    {
        match self {
            ReasoningEffort::Low => "low",
            ReasoningEffort::Medium => "medium",
            ReasoningEffort::High => "high",
        }
    }
}

/// A deadline for one provider call, a positive number of milliseconds.
#[derive(Clone, Copy, Debug, PartialEq, Eq)]
pub struct ProviderCallTimeout {
    milliseconds: u64,
}

impl View for ProviderCallTimeout {
    type V = nat;

    closed spec fn view(&self) -> nat {
        self.milliseconds as nat
    }
}

impl ProviderCallTimeout {
    #[verifier::type_invariant]
    closed spec fn is_positive(self) -> bool {
        self.milliseconds > 0
    }

    /// Accepts any positive number of milliseconds; a zero deadline is refused.
    pub fn from_milliseconds(milliseconds: u64) -> (result: Result<Self, Error>)
        ensures
            milliseconds == 0 ==> result == Err::<Self, Error>(Error::EmptyValue),
            milliseconds > 0 ==> (result matches Ok(timeout) && timeout@ == milliseconds),
    {
        if milliseconds == 0 {
            return Err(Error::EmptyValue);
        }
        Ok(ProviderCallTimeout { milliseconds })
    }

    /// The deadline as a `Duration` of `self@` milliseconds.
    pub fn duration(self) -> (duration: std::time::Duration)
        ensures
            duration == duration_of_millis(self@ as u64),
    {
        duration_from_millis(self.milliseconds)
    }
}

/// The span of the given number of milliseconds, as
/// `std::time::Duration::from_millis` builds it.
pub uninterp spec fn duration_of_millis(milliseconds: u64) -> std::time::Duration;

/// Calls `std::time::Duration::from_millis`, the span of that many
/// milliseconds. `Duration` is opaque to the proofs, so the result is named,
/// not described: the same count always gives the same span.
#[verifier::external_body]
fn duration_from_millis(milliseconds: u64) -> (duration: std::time::Duration)
    ensures
        duration == duration_of_millis(milliseconds),
{
    std::time::Duration::from_millis(milliseconds)
}

} // verus!
