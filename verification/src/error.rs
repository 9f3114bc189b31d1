use vstd::prelude::*;

verus! {

/// Every failure the judge mechanics can report.
#[derive(Debug, PartialEq, Eq)]
pub enum Error {
    EmptyValue,
    ProviderCall(String),
    SecretSourceUnsupported(String),
    SecretSourceUnavailable(String),
    ProviderCommandUnavailable,
    ProviderCommandTimedOut,
    ProviderCommandExited,
    ProviderCommandEmptyOutput,
    ProviderCommandNonUtf8Output,
    ProviderProcessGroupTeardownFailed,
    ProviderAuthorizationUnsupported,
    ProviderAuthorizationReferenceUnsupported,
    ProviderResponse(String),
}

/// The human-readable text of an error.
pub open spec fn error_message(error: Error) -> Seq<char> {
    match error {
        Error::EmptyValue => "judge value is empty"@,
        Error::ProviderCall(detail) => "provider call failed: "@ + detail@,
        Error::SecretSourceUnsupported(detail) => "secret source is unsupported: "@ + detail@,
        Error::SecretSourceUnavailable(detail) => "secret source is unavailable: "@ + detail@,
        Error::ProviderCommandUnavailable => "provider command is unavailable"@,
        Error::ProviderCommandTimedOut => "provider command exceeded its deadline"@,
        Error::ProviderCommandExited => "provider command exited unsuccessfully"@,
        Error::ProviderCommandEmptyOutput => "provider command returned empty output"@,
        Error::ProviderCommandNonUtf8Output => "provider command returned non-UTF-8 output"@,
        Error::ProviderProcessGroupTeardownFailed => "provider process group could not be terminated safely"@,
        Error::ProviderAuthorizationUnsupported => "provider authorization is not supported by this provider"@,
        Error::ProviderAuthorizationReferenceUnsupported => "provider authorization reference is not supported"@,
        Error::ProviderResponse(detail) => "provider endpoint returned malformed response: "@ + detail@,
    }
}

fn prefixed(prefix: &str, detail: &String) -> (text: String)
    ensures
        text@ == prefix@ + detail@,
{
    let mut text = String::from_str(prefix);
    text.append(detail.as_str());
    text
}

impl Error {
    /// The message that describes this error to a person.
    pub fn message(&self) -> (text: String)
        ensures
            text@ == error_message(*self),
    {
        match self {
            Error::EmptyValue => String::from_str("judge value is empty"),
            Error::ProviderCall(detail) => prefixed("provider call failed: ", detail),
            Error::SecretSourceUnsupported(detail) => prefixed("secret source is unsupported: ", detail),
            Error::SecretSourceUnavailable(detail) => prefixed("secret source is unavailable: ", detail),
            Error::ProviderCommandUnavailable => String::from_str("provider command is unavailable"),
            Error::ProviderCommandTimedOut => String::from_str("provider command exceeded its deadline"),
            Error::ProviderCommandExited => String::from_str("provider command exited unsuccessfully"),
            Error::ProviderCommandEmptyOutput => String::from_str("provider command returned empty output"),
            Error::ProviderCommandNonUtf8Output => String::from_str("provider command returned non-UTF-8 output"),
            Error::ProviderProcessGroupTeardownFailed => String::from_str("provider process group could not be terminated safely"),
            Error::ProviderAuthorizationUnsupported => String::from_str("provider authorization is not supported by this provider"),
            Error::ProviderAuthorizationReferenceUnsupported => String::from_str("provider authorization reference is not supported"),
            Error::ProviderResponse(detail) => prefixed("provider endpoint returned malformed response: ", detail),
        }
    }
}

} // verus!
